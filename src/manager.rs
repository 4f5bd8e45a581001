use vstd::prelude::*;
use crate::access::{access_file, access_rules_text, admin_role, app_role};
use crate::config::{
    copy_text, default_host, loaded, loopback, DatabaseMode, DbConfig, DbConfigView, StoredConfig,
};
use crate::lifecycle::{
    authorize_plan, build_authorize_plan, build_ensure_plan, build_init_plan, build_persist_plan,
    build_start_plan, build_stop_plan, build_update_plan, ensure_plan, init_plan, initialized,
    is_initialized, persist_plan, start_plan, stop_plan, update_plan, ClusterState,
    PROBE_INTERVAL_MS,
};
use crate::paths::{bin_dir, bin_dir_of, config_dir, join_path, joined, parent_of};
use crate::plan::{Failure, Fault, FaultView, Instr, Plan, Runner, Step};
use crate::text::{decimal, decimal_text};

verus! {

/// An invocation of one of the engine's tools, or of a system tool.
#[derive(Debug, PartialEq, Eq)]
pub struct ToolCall {
    pub program: String,
    pub args: Vec<String>,
    /// The administrative secret, handed to the tool through the engine's
    /// password variable rather than on the command line.
    pub password: Option<String>,
}

pub struct CallView {
    pub program: Seq<char>,
    pub args: Seq<Seq<char>>,
    pub password: Option<Seq<char>>,
}

pub open spec fn texts(v: Seq<String>) -> Seq<Seq<char>> {
    v.map_values(|s: String| s@)
}

impl View for ToolCall {
    type V = CallView;

    open spec fn view(&self) -> CallView {
        CallView {
            program: self.program@,
            args: texts(self.args@),
            password: match self.password {
                Some(p) => Some(p@),
                None => None,
            },
        }
    }
}

/// A step in concrete terms.
#[derive(Debug, PartialEq, Eq)]
pub enum Task {
    RemoveDir(String),
    CreateDir(String),
    WriteFile(String, String),
    RemoveFile(String),
    /// Persist the configuration record to this path.
    SaveConfig(String),
    /// Run a tool to completion; it succeeds when it exits with success.
    Run(ToolCall),
    /// Launch a tool in the background with its output streams suppressed.
    Spawn(ToolCall),
    /// Succeeds when the path exists.
    Exists(String),
    Sleep(u64),
}

pub enum TaskView {
    RemoveDir(Seq<char>),
    CreateDir(Seq<char>),
    WriteFile(Seq<char>, Seq<char>),
    RemoveFile(Seq<char>),
    SaveConfig(Seq<char>),
    Run(CallView),
    Spawn(CallView),
    Exists(Seq<char>),
    Sleep(u64),
}

impl View for Task {
    type V = TaskView;

    open spec fn view(&self) -> TaskView {
        match self {
            Task::RemoveDir(p) => TaskView::RemoveDir(p@),
            Task::CreateDir(p) => TaskView::CreateDir(p@),
            Task::WriteFile(p, c) => TaskView::WriteFile(p@, c@),
            Task::RemoveFile(p) => TaskView::RemoveFile(p@),
            Task::SaveConfig(p) => TaskView::SaveConfig(p@),
            Task::Run(c) => TaskView::Run(c@),
            Task::Spawn(c) => TaskView::Spawn(c@),
            Task::Exists(p) => TaskView::Exists(p@),
            Task::Sleep(ms) => TaskView::Sleep(*ms),
        }
    }
}

/// Supervisor of one embedded engine installation, or of the connection to
/// a remote one. It never stops the engine on its own: the engine outlives
/// the manager, and `child` is only the evidence that this manager launched it.
pub struct PostgresManager {
    child: bool,
    fresh: bool,
    cluster_root: String,
    data_dir: String,
    secret_file: String,
    postgres_bin_dir: String,
    config_file_path: String,
    config: DbConfig,
    pub db_name: String,
}

pub struct ManagerView {
    pub child: bool,
    pub fresh: bool,
    pub cluster_root: Seq<char>,
    pub data_dir: Seq<char>,
    pub secret_file: Seq<char>,
    pub bin_dir: Seq<char>,
    pub config_file: Seq<char>,
    pub config: DbConfigView,
    pub db_name: Seq<char>,
}

impl View for PostgresManager {
    type V = ManagerView;

    closed spec fn view(&self) -> ManagerView {
        ManagerView {
            child: self.child,
            fresh: self.fresh,
            cluster_root: self.cluster_root@,
            data_dir: self.data_dir@,
            secret_file: self.secret_file@,
            bin_dir: self.postgres_bin_dir@,
            config_file: self.config_file_path@,
            config: self.config@,
            db_name: self.db_name@,
        }
    }
}

/// How the configuration file of an installation turned out when read.
pub enum ConfigSource {
    Missing,
    Unreadable(String),
    Corrupt(String),
    Found(StoredConfig),
}

/// The database that a standalone installation serves.
pub open spec fn default_db() -> Seq<char> {
    "wiki"@
}

/// The layout of a manager whose cluster lives under `root`.
pub open spec fn laid_out(v: ManagerView, root: Seq<char>, resources: Seq<char>) -> bool {
    &&& v.cluster_root == root
    &&& v.data_dir == joined(root, "data"@)
    &&& v.secret_file == joined(root, "pg_pw.tmp"@)
    &&& v.bin_dir == bin_dir_of(resources)
    &&& !v.child
}

pub open spec fn port_text(v: ManagerView) -> Seq<char> {
    decimal(v.config.port as nat)
}

pub open spec fn server_settings(port: u16) -> Seq<char> {
    "port = "@ + decimal(port as nat)
        + "\nlisten_addresses = '127.0.0.1'\nmax_connections = 50\nshared_buffers = 128MB\npassword_encryption = scram-sha-256\ndynamic_shared_memory_type = windows\n"@
}

pub open spec fn role_sql(app_password: Seq<char>) -> Seq<char> {
    "DO $$ BEGIN IF NOT EXISTS (SELECT FROM pg_catalog.pg_user WHERE usename = '"@ + app_role()
        + "') THEN CREATE USER "@ + app_role() + " WITH PASSWORD '"@ + app_password
        + "'; END IF; END $$;"@
}

pub open spec fn grant_sql(database: Seq<char>) -> Seq<char> {
    "ALTER DATABASE "@ + database + " OWNER TO "@ + app_role() + "; GRANT ALL ON SCHEMA public TO "@
        + app_role() + ";"@
}

pub open spec fn connection(v: ManagerView) -> Seq<char> {
    "postgres://"@ + admin_role() + ":"@ + v.config.postgres_password + "@"@ + v.config.host + ":"@
        + port_text(v) + "/"@ + v.db_name + "?sslmode=disable"@
}

pub open spec fn engine_call(v: ManagerView, tool: Seq<char>, args: Seq<Seq<char>>) -> CallView {
    CallView { program: joined(v.bin_dir, tool), args, password: None }
}

/// A tool run as the administrative role against the local engine.
pub open spec fn admin_call(v: ManagerView, tool: Seq<char>, args: Seq<Seq<char>>) -> CallView {
    CallView {
        program: joined(v.bin_dir, tool),
        args: seq!["-h"@, loopback(), "-p"@, port_text(v), "-U"@, admin_role()] + args,
        password: Some(v.config.postgres_password),
    }
}

pub open spec fn server_call(v: ManagerView) -> CallView {
    engine_call(v, "postgres.exe"@, seq!["-D"@, v.data_dir, "-p"@, port_text(v)])
}

pub open spec fn grant_call(v: ManagerView, who: Seq<char>) -> CallView {
    CallView {
        program: "icacls"@,
        args: seq![v.data_dir, "/grant"@, who + ":(OI)(CI)F"@],
        password: None,
    }
}

/// What each step stands for, for the manager `v`, a plan's database and
/// the account it grants access to.
pub open spec fn task_of(v: ManagerView, step: Step, database: Seq<char>, account: Seq<char>) -> TaskView {
    match step {
        Step::CreateConfigDir => TaskView::CreateDir(v.cluster_root),
        Step::RemoveDataDir => TaskView::RemoveDir(v.data_dir),
        Step::CreateDataDir => TaskView::CreateDir(v.data_dir),
        Step::WriteSecretFile => TaskView::WriteFile(v.secret_file, v.config.postgres_password),
        Step::InitCluster => TaskView::Run(
            engine_call(
                v,
                "initdb.exe"@,
                seq![
                    "-D"@,
                    v.data_dir,
                    "-U"@,
                    admin_role(),
                    "--encoding=UTF8"@,
                    "--locale=C"@,
                    "--auth=scram-sha-256"@,
                    "--pwfile"@,
                    v.secret_file,
                    "--no-sync"@,
                ],
            ),
        ),
        Step::RemoveSecretFile => TaskView::RemoveFile(v.secret_file),
        Step::SaveConfig => TaskView::SaveConfig(v.config_file),
        Step::WriteServerSettings => TaskView::WriteFile(
            joined(v.data_dir, "postgresql.conf"@),
            server_settings(v.config.port),
        ),
        Step::WriteAccessRules => TaskView::WriteFile(joined(v.data_dir, "pg_hba.conf"@), access_file()),
        Step::LaunchForSetup => TaskView::Spawn(server_call(v)),
        Step::Launch => TaskView::Spawn(server_call(v)),
        Step::CheckServerBinary => TaskView::Exists(joined(v.bin_dir, "postgres.exe"@)),
        Step::ProbeReady => TaskView::Run(
            engine_call(v, "pg_isready.exe"@, seq!["-h"@, v.config.host, "-p"@, port_text(v)]),
        ),
        Step::Pause => TaskView::Sleep(PROBE_INTERVAL_MS),
        Step::CreateDatabase => TaskView::Run(admin_call(v, "createdb.exe"@, seq![database])),
        Step::EnsureAppRole => TaskView::Run(
            admin_call(v, "psql.exe"@, seq!["-d"@, admin_role(), "-c"@, role_sql(v.config.app_password)]),
        ),
        Step::GrantOwnership => TaskView::Run(
            admin_call(v, "psql.exe"@, seq!["-d"@, database, "-c"@, grant_sql(database)]),
        ),
        Step::GrantSystem => TaskView::Run(grant_call(v, "SYSTEM"@)),
        Step::GrantAdministrators => TaskView::Run(grant_call(v, "*S-1-5-32-544"@)),
        Step::GrantUser => TaskView::Run(grant_call(v, account)),
        Step::StopServer => TaskView::Run(
            engine_call(v, "pg_ctl.exe"@, seq!["stop"@, "-D"@, v.data_dir, "-m"@, "fast"@]),
        ),
    }
}

/// The message that reports a failure, naming what failed and where.
pub open spec fn message(v: ManagerView, f: FaultView, database: Seq<char>) -> Seq<char> {
    match f.failure {
        Failure::SaveConfig => "Echec sauvegarde config "@ + v.config_file + ": "@ + f.detail,
        Failure::CreateDataDir => "Echec creation du dossier "@ + v.data_dir + ": "@ + f.detail,
        Failure::WriteSecretFile => "Echec ecriture du mot de passe temporaire "@ + v.secret_file
            + ": "@ + f.detail,
        Failure::InitCluster => "Initdb erreur: "@ + f.detail,
        Failure::WriteServerSettings => "Echec ecriture postgresql.conf: "@ + f.detail,
        Failure::WriteAccessRules => "Echec ecriture pg_hba.conf: "@ + f.detail,
        Failure::Launch => "Echec du spawn postgres: "@ + f.detail,
        Failure::MissingBinary => "Ex\u{e9}cutable PostgreSQL introuvable \u{e0} : "@ + joined(
            v.bin_dir,
            "postgres.exe"@,
        ),
        Failure::NotReady => "Le serveur n'a pas d\u{e9}marr\u{e9} \u{e0} temps"@,
        Failure::Grant => "Erreur d'attribution des droits sur "@ + database + ": "@ + f.detail,
    }
}

fn lit(v: &mut Vec<String>, s: &str)
    ensures
        texts(final(v)@) == texts(old(v)@).push(s@),
{
    v.push(String::from_str(s));
    assert(texts(v@) =~= texts(old(v)@).push(s@));
}

fn own(v: &mut Vec<String>, s: String)
    ensures
        texts(final(v)@) == texts(old(v)@).push(s@),
{
    let ghost sv = s@;
    v.push(s);
    assert(texts(v@) =~= texts(old(v)@).push(sv));
}

fn concat2(a: &str, b: &str) -> (r: String)
    ensures
        r@ == a@ + b@,
{
    let mut s = String::from_str(a);
    s.append(b);
    s
}

fn concat3(a: &str, b: &str, c: &str) -> (r: String)
    ensures
        r@ == a@ + b@ + c@,
{
    let mut s = String::from_str(a);
    s.append(b);
    s.append(c);
    s
}

impl PostgresManager {
    fn layout(root: String, resources_dir: &str, config_file_path: String, config: DbConfig, db_name: String, fresh: bool) -> (r: PostgresManager)
        ensures
            laid_out(r@, root@, resources_dir@),
            r@.config_file == config_file_path@,
            r@.config == config@,
            r@.db_name == db_name@,
            r@.fresh == fresh,
    {
        let data_dir = join_path(root.as_str(), "data");
        let secret_file = join_path(root.as_str(), "pg_pw.tmp");
        PostgresManager {
            child: false,
            fresh,
            cluster_root: root,
            data_dir,
            secret_file,
            postgres_bin_dir: bin_dir(resources_dir),
            config_file_path,
            config,
            db_name,
        }
    }

    /// A manager for a standalone installation under `app_dir`. A record read
    /// back from the file is used as it stands, with defaults for what it
    /// leaves out; with no file, a fresh record is generated, to be persisted
    /// by `persist_plan` before anything else. A file that cannot be read or
    /// parsed is an error: no repair is attempted.
    pub fn new(app_dir: &str, resources_dir: &str, source: ConfigSource) -> (r: Result<Self, String>)
        ensures
            match source {
                ConfigSource::Unreadable(e) => r is Err && r->Err_0@ == "Echec lecture config: "@ + e@,
                ConfigSource::Corrupt(e) => r is Err && r->Err_0@ == "Echec parse config: "@ + e@,
                ConfigSource::Found(s) => r is Ok && r->Ok_0@.config == loaded(s@) && !r->Ok_0@.fresh,
                ConfigSource::Missing => r is Ok && crate::config::is_fresh(r->Ok_0@.config)
                    && r->Ok_0@.fresh,
            },
            r is Ok ==> ({
                let v = r->Ok_0@;
                &&& laid_out(v, joined(app_dir@, "postgresql"@), resources_dir@)
                &&& v.config_file == joined(joined(app_dir@, "postgresql"@), "db_config.json"@)
                &&& v.db_name == default_db()
            }),
    {
        let (config, fresh) = match source {
            ConfigSource::Unreadable(e) => {
                let mut m = String::from_str("Echec lecture config: ");
                m.append(e.as_str());
                return Err(m);
            },
            ConfigSource::Corrupt(e) => {
                let mut m = String::from_str("Echec parse config: ");
                m.append(e.as_str());
                return Err(m);
            },
            ConfigSource::Found(s) => (DbConfig::from_stored(s), false),
            ConfigSource::Missing => (DbConfig::generate(), true),
        };
        let root = join_path(app_dir, "postgresql");
        let config_file_path = join_path(root.as_str(), "db_config.json");
        Ok(Self::layout(root, resources_dir, config_file_path, config, String::from_str("wiki"), fresh))
    }

    /// A manager over a configuration file that a sibling product owns. The
    /// cluster lives beside that file, under `data`.
    pub fn from_existing_config(config_path: &str, resources_dir: &str, db_name: &str, stored: StoredConfig) -> (r: Result<Self, String>)
        ensures
            parent_of(config_path@) is None <==> r is Err,
            r is Err ==> r->Err_0@ == "Invalid config path"@,
            r is Ok ==> ({
                let v = r->Ok_0@;
                &&& laid_out(v, parent_of(config_path@)->0, resources_dir@)
                &&& v.config_file == config_path@
                &&& v.config == loaded(stored@)
                &&& v.db_name == db_name@
                &&& !v.fresh
            }),
    {
        match config_dir(config_path) {
            None => Err(String::from_str("Invalid config path")),
            Some(root) => Ok(
                Self::layout(
                    root,
                    resources_dir,
                    String::from_str(config_path),
                    DbConfig::from_stored(stored),
                    String::from_str(db_name),
                    false,
                ),
            ),
        }
    }

    pub fn config(&self) -> (r: &DbConfig)
        ensures
            r@ == self@.config,
    {
        &self.config
    }

    pub fn data_dir(&self) -> (r: &String)
        ensures
            r@ == self@.data_dir,
    {
        &self.data_dir
    }

    /// Where the cluster's version marker lies.
    pub fn marker_path(&self) -> (r: String)
        ensures
            r@ == joined(self@.data_dir, "PG_VERSION"@),
    {
        join_path(self.data_dir.as_str(), "PG_VERSION")
    }

    /// Whether this manager launched the engine.
    pub fn owns_process(&self) -> (r: bool)
        ensures
            r == self@.child,
    {
        self.child
    }

    fn plan(&self, steps: Vec<Instr>, database: String, account: String) -> (r: Plan)
        ensures
            r.steps@ == steps@,
            r.database@ == database@,
            r.account@ == account@,
    {
        Plan { steps, database, account }
    }

    fn own_plan(&self, steps: Vec<Instr>) -> (r: Plan)
        ensures
            r.steps@ == steps@,
            r.database@ == self@.db_name,
            r.account@ == Seq::<char>::empty(),
    {
        Plan { steps, database: copy_text(&self.db_name), account: String::new() }
    }

    /// Persisting a freshly generated record: nothing for a record read back.
    pub fn persist_plan(&self) -> (r: Plan)
        ensures
            r.steps@ == persist_plan(self@.fresh),
            r.database@ == self@.db_name,
    {
        self.own_plan(build_persist_plan(self.fresh))
    }

    pub fn set_db_name(&mut self, name: &str)
        ensures
            final(self)@ == (ManagerView { db_name: name@, ..old(self)@ }),
    {
        self.db_name = String::from_str(name);
    }

    /// Changes mode, host and port; the plan persists the changed record.
    pub fn update_config(&mut self, mode: DatabaseMode, host: String, port: u16) -> (r: Plan)
        ensures
            final(self)@ == (ManagerView {
                config: DbConfigView { mode, host: host@, port, ..old(self)@.config },
                ..old(self)@
            }),
            r.steps@ == update_plan(),
    {
        self.config.mode = mode;
        self.config.host = host;
        self.config.port = port;
        self.own_plan(build_update_plan())
    }

    /// Whether the cluster needs no initialization: always in network mode,
    /// else when the data directory holds the version marker.
    pub fn is_initialized(&self, cluster: ClusterState) -> (r: bool)
        ensures
            r == initialized(self@.config.mode, cluster),
    {
        is_initialized(self.config.mode, cluster)
    }

    /// The initialization plan, for a cluster in the state `cluster`. With
    /// `acl`, on a platform whose data directory takes access-control
    /// grants, the system account, the local administrators and `account`
    /// (the invoking user account, when it is not empty) get full control.
    pub fn init_database(&self, cluster: ClusterState, acl: bool, account: &str) -> (r: Plan)
        ensures
            r.steps@ == init_plan(self@.config.mode, cluster, acl, account@.len() > 0),
            r.database@ == self@.db_name,
            r.account@ == account@,
    {
        let named = account.unicode_len() > 0;
        self.plan(build_init_plan(self.config.mode, cluster, acl, named), copy_text(&self.db_name), String::from_str(account))
    }

    /// The start plan.
    pub fn start(&self) -> (r: Plan)
        ensures
            r.steps@ == start_plan(self@.config.mode, self@.child),
            r.database@ == self@.db_name,
    {
        self.own_plan(build_start_plan(self.config.mode, self.child))
    }

    /// The stop plan. In embedded mode the evidence of a launch is dropped
    /// whatever the shutdown gives; in network mode nothing changes.
    pub fn stop(&mut self) -> (r: Plan)
        ensures
            r.steps@ == stop_plan(old(self)@.config.mode),
            old(self)@.config.mode == DatabaseMode::Embedded ==> final(self)@ == (ManagerView {
                child: false,
                ..old(self)@
            }),
            old(self)@.config.mode == DatabaseMode::Network ==> final(self)@ == old(self)@,
    {
        if self.config.mode == DatabaseMode::Embedded {
            self.child = false;
        }
        self.own_plan(build_stop_plan(self.config.mode))
    }

    /// The plan that ensures the manager's database and the application role.
    pub fn ensure_database_exists(&self) -> (r: Plan)
        ensures
            r.steps@ == ensure_plan(self@.config.mode),
            r.database@ == self@.db_name,
    {
        self.own_plan(build_ensure_plan(self.config.mode))
    }

    /// The plan that ensures the application role and makes it the owner of `db_name`.
    pub fn authorize_user_on_db(&self, db_name: &str) -> (r: Plan)
        ensures
            r.steps@ == authorize_plan(self@.config.mode),
            r.database@ == db_name@,
    {
        self.plan(build_authorize_plan(self.config.mode), String::from_str(db_name), String::new())
    }

    /// The connection string of the administrative role, without TLS.
    pub fn get_connection_string(&self) -> (r: String)
        ensures
            r@ == connection(self@),
    {
        let mut s = String::from_str("postgres://");
        s.append("postgres");
        s.append(":");
        s.append(self.config.postgres_password.as_str());
        s.append("@");
        s.append(self.config.host.as_str());
        s.append(":");
        s.append(decimal_text(self.config.port as u64).as_str());
        s.append("/");
        s.append(self.db_name.as_str());
        s.append("?sslmode=disable");
        s
    }
}


impl PostgresManager {
    fn port_arg(&self) -> (r: String)
        ensures
            r@ == port_text(self@),
    {
        decimal_text(self.config.port as u64)
    }

    fn tool(&self, name: &str) -> (r: String)
        ensures
            r@ == joined(self@.bin_dir, name@),
    {
        join_path(self.postgres_bin_dir.as_str(), name)
    }

    fn server_call(&self) -> (r: ToolCall)
        ensures
            r@ == server_call(self@),
    {
        let mut a: Vec<String> = Vec::new();
        lit(&mut a, "-D");
        own(&mut a, copy_text(&self.data_dir));
        lit(&mut a, "-p");
        own(&mut a, self.port_arg());
        let r = ToolCall { program: self.tool("postgres.exe"), args: a, password: None };
        assert(r@.args =~= server_call(self@).args);
        r
    }

    fn admin_call(&self, name: &str, target: String, sql: Option<String>) -> (r: ToolCall)
        ensures
            r@ == admin_call(
                self@,
                name@,
                match sql {
                    Some(q) => seq!["-d"@, target@, "-c"@, q@],
                    None => seq![target@],
                },
            ),
    {
        let mut a: Vec<String> = Vec::new();
        lit(&mut a, "-h");
        own(&mut a, default_host());
        lit(&mut a, "-p");
        own(&mut a, self.port_arg());
        lit(&mut a, "-U");
        lit(&mut a, "postgres");
        let ghost head = texts(a@);
        assert(head =~= seq!["-h"@, loopback(), "-p"@, port_text(self@), "-U"@, admin_role()]);
        let ghost tv = target@;
        match sql {
            Some(q) => {
                let ghost qv = q@;
                lit(&mut a, "-d");
                own(&mut a, target);
                lit(&mut a, "-c");
                own(&mut a, q);
                assert(texts(a@) =~= head + seq!["-d"@, tv, "-c"@, qv]);
            },
            None => {
                own(&mut a, target);
                assert(texts(a@) =~= head + seq![tv]);
            },
        }
        ToolCall {
            program: self.tool(name),
            args: a,
            password: Some(copy_text(&self.config.postgres_password)),
        }
    }

    fn grant_call(&self, who: &str) -> (r: ToolCall)
        ensures
            r@ == grant_call(self@, who@),
    {
        let mut a: Vec<String> = Vec::new();
        own(&mut a, copy_text(&self.data_dir));
        lit(&mut a, "/grant");
        let mut g = String::from_str(who);
        g.append(":(OI)(CI)F");
        own(&mut a, g);
        let r = ToolCall { program: String::from_str("icacls"), args: a, password: None };
        assert(r@.args =~= grant_call(self@, who@).args);
        r
    }

    fn server_settings_text(&self) -> (r: String)
        ensures
            r@ == server_settings(self@.config.port),
    {
        let mut s = String::from_str("port = ");
        s.append(self.port_arg().as_str());
        s.append(
            "\nlisten_addresses = '127.0.0.1'\nmax_connections = 50\nshared_buffers = 128MB\npassword_encryption = scram-sha-256\ndynamic_shared_memory_type = windows\n",
        );
        s
    }

    fn role_sql_text(&self) -> (r: String)
        ensures
            r@ == role_sql(self@.config.app_password),
    {
        let mut s = String::from_str(
            "DO $$ BEGIN IF NOT EXISTS (SELECT FROM pg_catalog.pg_user WHERE usename = '",
        );
        s.append("app_user");
        s.append("') THEN CREATE USER ");
        s.append("app_user");
        s.append(" WITH PASSWORD '");
        s.append(self.config.app_password.as_str());
        s.append("'; END IF; END $$;");
        s
    }

    fn init_call(&self) -> (r: ToolCall)
        ensures
            r@ == task_of(self@, Step::InitCluster, Seq::empty(), Seq::empty())->Run_0,
    {
        let mut a: Vec<String> = Vec::new();
        lit(&mut a, "-D");
        own(&mut a, copy_text(&self.data_dir));
        lit(&mut a, "-U");
        lit(&mut a, "postgres");
        lit(&mut a, "--encoding=UTF8");
        lit(&mut a, "--locale=C");
        lit(&mut a, "--auth=scram-sha-256");
        lit(&mut a, "--pwfile");
        own(&mut a, copy_text(&self.secret_file));
        lit(&mut a, "--no-sync");
        let r = ToolCall { program: self.tool("initdb.exe"), args: a, password: None };
        assert(r@.args =~= task_of(self@, Step::InitCluster, Seq::empty(), Seq::empty())->Run_0.args);
        r
    }

    fn simple_call(&self, step: Step) -> (r: ToolCall)
        requires
            step == Step::ProbeReady || step == Step::StopServer,
        ensures
            r@ == task_of(self@, step, Seq::empty(), Seq::empty())->Run_0,
    {
        let mut a: Vec<String> = Vec::new();
        if step == Step::ProbeReady {
            lit(&mut a, "-h");
            own(&mut a, copy_text(&self.config.host));
            lit(&mut a, "-p");
            own(&mut a, self.port_arg());
            let r = ToolCall { program: self.tool("pg_isready.exe"), args: a, password: None };
            assert(r@.args =~= task_of(self@, step, Seq::empty(), Seq::empty())->Run_0.args);
            r
        } else {
            lit(&mut a, "stop");
            lit(&mut a, "-D");
            own(&mut a, copy_text(&self.data_dir));
            lit(&mut a, "-m");
            lit(&mut a, "fast");
            let r = ToolCall { program: self.tool("pg_ctl.exe"), args: a, password: None };
            assert(r@.args =~= task_of(self@, step, Seq::empty(), Seq::empty())->Run_0.args);
            r
        }
    }

    /// What `step` stands for, for a plan's database and account.
    pub fn task_for(&self, step: Step, database: &String, account: &String) -> (r: Task)
        ensures
            r@ == task_of(self@, step, database@, account@),
    {
        match step {
            Step::CreateConfigDir => Task::CreateDir(copy_text(&self.cluster_root)),
            Step::RemoveDataDir => Task::RemoveDir(copy_text(&self.data_dir)),
            Step::CreateDataDir => Task::CreateDir(copy_text(&self.data_dir)),
            Step::WriteSecretFile => Task::WriteFile(
                copy_text(&self.secret_file),
                copy_text(&self.config.postgres_password),
            ),
            Step::InitCluster => Task::Run(self.init_call()),
            Step::RemoveSecretFile => Task::RemoveFile(copy_text(&self.secret_file)),
            Step::SaveConfig => Task::SaveConfig(copy_text(&self.config_file_path)),
            Step::WriteServerSettings => Task::WriteFile(
                join_path(self.data_dir.as_str(), "postgresql.conf"),
                self.server_settings_text(),
            ),
            Step::WriteAccessRules => Task::WriteFile(
                join_path(self.data_dir.as_str(), "pg_hba.conf"),
                access_rules_text(),
            ),
            Step::LaunchForSetup => Task::Spawn(self.server_call()),
            Step::Launch => Task::Spawn(self.server_call()),
            Step::CheckServerBinary => Task::Exists(self.tool("postgres.exe")),
            Step::ProbeReady => Task::Run(self.simple_call(step)),
            Step::Pause => Task::Sleep(PROBE_INTERVAL_MS),
            Step::CreateDatabase => Task::Run(self.admin_call("createdb.exe", copy_text(database), None)),
            Step::EnsureAppRole => Task::Run(
                self.admin_call("psql.exe", String::from_str("postgres"), Some(self.role_sql_text())),
            ),
            Step::GrantOwnership => {
                let mut q = String::from_str("ALTER DATABASE ");
                q.append(database.as_str());
                q.append(" OWNER TO ");
                q.append("app_user");
                q.append("; GRANT ALL ON SCHEMA public TO ");
                q.append("app_user");
                q.append(";");
                Task::Run(self.admin_call("psql.exe", copy_text(database), Some(q)))
            },
            Step::GrantSystem => Task::Run(self.grant_call("SYSTEM")),
            Step::GrantAdministrators => Task::Run(self.grant_call("*S-1-5-32-544")),
            Step::GrantUser => Task::Run(self.grant_call(account.as_str())),
            Step::StopServer => Task::Run(self.simple_call(step)),
        }
    }

    /// The task for the current step of `run`, or `None` once the run has ended.
    pub fn task(&self, run: &Runner) -> (r: Option<Task>)
        requires
            run.wf(),
        ensures
            run@.end is None ==> r is Some && r->0@ == task_of(
                self@,
                run@.steps[run@.pos].step,
                run@.database,
                run@.account,
            ),
            run@.end is Some ==> r is None,
    {
        match run.current() {
            None => None,
            Some(step) => Some(self.task_for(step, run.database(), run.account())),
        }
    }

    /// The message for a failure met by a plan on `database`.
    pub fn describe(&self, fault: &Fault, database: &str) -> (r: String)
        ensures
            r@ == message(self@, fault@, database@),
    {
        let d = fault.detail.as_str();
        match fault.failure {
            Failure::SaveConfig => {
                let mut s = concat3("Echec sauvegarde config ", self.config_file_path.as_str(), ": ");
                s.append(d);
                s
            },
            Failure::CreateDataDir => {
                let mut s = concat3("Echec creation du dossier ", self.data_dir.as_str(), ": ");
                s.append(d);
                s
            },
            Failure::WriteSecretFile => {
                let mut s = concat3(
                    "Echec ecriture du mot de passe temporaire ",
                    self.secret_file.as_str(),
                    ": ",
                );
                s.append(d);
                s
            },
            Failure::InitCluster => concat2("Initdb erreur: ", d),
            Failure::WriteServerSettings => concat2("Echec ecriture postgresql.conf: ", d),
            Failure::WriteAccessRules => concat2("Echec ecriture pg_hba.conf: ", d),
            Failure::Launch => concat2("Echec du spawn postgres: ", d),
            Failure::MissingBinary => concat2("Ex\u{e9}cutable PostgreSQL introuvable \u{e0} : ", self.tool("postgres.exe").as_str()),
            Failure::NotReady => String::from_str("Le serveur n'a pas d\u{e9}marr\u{e9} \u{e0} temps"),
            Failure::Grant => {
                let mut s = concat3("Erreur d'attribution des droits sur ", database, ": ");
                s.append(d);
                s
            },
        }
    }

    /// Takes in how a run ended: a successful `Launch` is kept as evidence
    /// that this manager started the engine, and a failure becomes its message.
    pub fn conclude(&mut self, run: &Runner) -> (r: Result<(), String>)
        requires
            run@.end is Some,
        ensures
            final(self)@ == (ManagerView { child: old(self)@.child || run@.launched, ..old(self)@ }),
            run@.end == Some(Ok::<(), FaultView>(())) ==> r is Ok,
            run@.end matches Some(Err(f)) ==> r is Err && r->Err_0@ == message(
                old(self)@,
                f,
                run@.database,
            ),
    {
        if run.launched() {
            self.child = true;
        }
        match run.result() {
            Some(Err(f)) => Err(self.describe(&f, run.database().as_str())),
            _ => Ok(()),
        }
    }
}

} // verus!
