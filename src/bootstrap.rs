use vstd::prelude::*;
use crate::lifecycle::{
    ensure_plan, init_plan, persist_plan, start_plan, ClusterState,
};
use crate::manager::{ManagerView, PostgresManager};
use crate::paths::{join_path, joined};
use crate::plan::Plan;

verus! {

/// Where the configuration comes from: a sibling product's file, adopted
/// as it is, or this application's own standalone installation.
#[derive(Clone, Copy, Debug, PartialEq, Eq, Structural)]
pub enum ConfigChoice {
    Adopt,
    Standalone,
}

/// The stages of the bootstrap sequence, in order.
#[derive(Clone, Copy, Debug, PartialEq, Eq, Structural)]
pub enum Stage {
    /// Persist a freshly generated record.
    Persist,
    /// Create the cluster if there is none.
    Initialize,
    /// Make sure the engine runs.
    Start,
    /// Make sure the database and the application role exist.
    Provision,
}

pub open spec fn sibling_config(roaming: Seq<char>) -> Seq<char> {
    joined(joined(joined(roaming, "com.collabtools.core"@), "postgresql"@), "db_config.json"@)
}

pub open spec fn standalone_home(roaming: Seq<char>) -> Seq<char> {
    joined(roaming, "com.wikitools.app"@)
}

/// Where a sibling product keeps its configuration, under the per-user data area.
pub fn sibling_config_path(roaming: &str) -> (r: String)
    ensures
        r@ == sibling_config(roaming@),
{
    let a = join_path(roaming, "com.collabtools.core");
    let b = join_path(a.as_str(), "postgresql");
    join_path(b.as_str(), "db_config.json")
}

/// The installation directory of the standalone application.
pub fn standalone_dir(roaming: &str) -> (r: String)
    ensures
        r@ == standalone_home(roaming@),
{
    join_path(roaming, "com.wikitools.app")
}

/// A sibling product's configuration is adopted whenever it exists.
pub fn choose_source(sibling_exists: bool) -> (r: ConfigChoice)
    ensures
        r == (if sibling_exists {
            ConfigChoice::Adopt
        } else {
            ConfigChoice::Standalone
        }),
{
    if sibling_exists {
        ConfigChoice::Adopt
    } else {
        ConfigChoice::Standalone
    }
}

pub open spec fn first_stage_of(choice: ConfigChoice) -> Stage {
    match choice {
        ConfigChoice::Standalone => Stage::Persist,
        ConfigChoice::Adopt => Stage::Start,
    }
}

pub open spec fn stage_after(stage: Stage) -> Option<Stage> {
    match stage {
        Stage::Persist => Some(Stage::Initialize),
        Stage::Initialize => Some(Stage::Start),
        Stage::Start => Some(Stage::Provision),
        Stage::Provision => None,
    }
}

/// The first stage: a standalone installation persists and initializes
/// its own cluster; an adopted one is only started and provisioned.
pub fn first_stage(choice: ConfigChoice) -> (r: Stage)
    ensures
        r == first_stage_of(choice),
{
    match choice {
        ConfigChoice::Standalone => Stage::Persist,
        ConfigChoice::Adopt => Stage::Start,
    }
}

/// The stage that follows, or `None` when the database is ready.
pub fn next_stage(stage: Stage) -> (r: Option<Stage>)
    ensures
        r == stage_after(stage),
{
    match stage {
        Stage::Persist => Some(Stage::Initialize),
        Stage::Initialize => Some(Stage::Start),
        Stage::Start => Some(Stage::Provision),
        Stage::Provision => None,
    }
}

pub open spec fn stage_steps(v: ManagerView, stage: Stage, cluster: ClusterState, acl: bool, account: Seq<char>) -> Seq<crate::plan::Instr> {
    match stage {
        Stage::Persist => persist_plan(v.fresh),
        Stage::Initialize => init_plan(v.config.mode, cluster, acl, account.len() > 0),
        Stage::Start => start_plan(v.config.mode, v.child),
        Stage::Provision => ensure_plan(v.config.mode),
    }
}

/// The plan of a stage; `cluster` is what the file system shows of the
/// cluster right before it, `acl` whether the platform takes access-control
/// grants, `account` the invoking user account.
pub fn stage_plan(m: &PostgresManager, stage: Stage, cluster: ClusterState, acl: bool, account: &str) -> (r: Plan)
    ensures
        r.steps@ == stage_steps(m@, stage, cluster, acl, account@),
        r.database@ == m@.db_name,
{
    match stage {
        Stage::Persist => m.persist_plan(),
        Stage::Initialize => m.init_database(cluster, acl, account),
        Stage::Start => m.start(),
        Stage::Provision => m.ensure_database_exists(),
    }
}

pub open spec fn stage_prefix(stage: Stage) -> Seq<char> {
    match stage {
        Stage::Persist => "Echec init manager autonome: "@,
        Stage::Initialize => "Echec initdb autonome: "@,
        Stage::Start => "Erreur start(): "@,
        Stage::Provision => "Erreur ensure_db(): "@,
    }
}

/// The message that reports a failed stage to the user.
pub fn stage_error(stage: Stage, detail: &str) -> (r: String)
    ensures
        r@ == stage_prefix(stage) + detail@,
{
    let mut s = match stage {
        Stage::Persist => String::from_str("Echec init manager autonome: "),
        Stage::Initialize => String::from_str("Echec initdb autonome: "),
        Stage::Start => String::from_str("Erreur start(): "),
        Stage::Provision => String::from_str("Erreur ensure_db(): "),
    };
    s.append(detail);
    s
}

/// The message of a completed bootstrap.
pub fn ready_message() -> (r: String)
    ensures
        r@ == "Base de donn\u{e9}es pr\u{ea}te."@,
{
    String::from_str("Base de donn\u{e9}es pr\u{ea}te.")
}

} // verus!
