use vstd::prelude::*;
use crate::config::DatabaseMode;
use crate::plan::{advanced, started, Failure, Instr, RunnerView, Step, Then};

verus! {

/// Readiness probes allowed to a freshly launched engine.
pub const READY_BUDGET: usize = 60;

/// Readiness probes made before launching, to find an engine left running.
pub const ORPHAN_PROBES: usize = 2;

/// Milliseconds between two readiness probes.
pub const PROBE_INTERVAL_MS: u64 = 500;

/// What the file system shows of the cluster before initialization.
#[derive(Clone, Copy, Debug, PartialEq, Eq, Structural)]
pub struct ClusterState {
    pub data_dir_exists: bool,
    pub marker_exists: bool,
}

pub open spec fn instr(step: Step, on_ok: Then, on_err: Then) -> Instr {
    Instr { step, on_ok, on_err }
}

/// A step whose outcome does not matter.
pub open spec fn quiet(step: Step) -> Instr {
    instr(step, Then::Continue, Then::Continue)
}

/// Element `k` of a readiness poll of `n` attempts: a probe, then a pause;
/// a probe that succeeds does `ready`, the pause after the last probe does
/// `exhausted`.
pub open spec fn poll_instr(n: nat, k: int, ready: Then, exhausted: Then) -> Instr {
    if k % 2 == 0 {
        instr(Step::ProbeReady, ready, Then::Continue)
    } else if k == 2 * n - 1 {
        instr(Step::Pause, exhausted, exhausted)
    } else {
        quiet(Step::Pause)
    }
}

pub open spec fn poll_block(n: nat, ready: Then, exhausted: Then) -> Seq<Instr> {
    Seq::new(2 * n, |k: int| poll_instr(n, k, ready, exhausted))
}

/// Ensuring the application role exists and owns `database`; a failed grant
/// is a warning.
pub open spec fn authorize_steps() -> Seq<Instr> {
    seq![
        quiet(Step::EnsureAppRole),
        instr(Step::GrantOwnership, Then::Continue, Then::Warn(Failure::Grant)),
    ]
}

/// Creating the database (an existing one is fine), then authorizing.
pub open spec fn provision_steps() -> Seq<Instr> {
    seq![quiet(Step::CreateDatabase)] + authorize_steps()
}

/// Cluster creation up to the launch of the engine for setup.
pub open spec fn setup_head() -> Seq<Instr> {
    seq![
        quiet(Step::RemoveDataDir),
        instr(Step::CreateDataDir, Then::Continue, Then::Fail(Failure::CreateDataDir)),
        instr(Step::WriteSecretFile, Then::Continue, Then::Fail(Failure::WriteSecretFile)),
        instr(Step::InitCluster, Then::Continue, Then::Hold(Failure::InitCluster)),
        instr(Step::RemoveSecretFile, Then::Release, Then::Release),
        quiet(Step::SaveConfig),
        instr(Step::WriteServerSettings, Then::Continue, Then::Fail(Failure::WriteServerSettings)),
        instr(Step::WriteAccessRules, Then::Continue, Then::Fail(Failure::WriteAccessRules)),
        instr(Step::LaunchForSetup, Then::Continue, Then::Fail(Failure::Launch)),
    ]
}

/// The access-control grants on the data directory: none without `acl`.
pub open spec fn grant_steps(acl: bool, named_account: bool) -> Seq<Instr> {
    if !acl {
        Seq::empty()
    } else if named_account {
        seq![quiet(Step::GrantSystem), quiet(Step::GrantAdministrators), quiet(Step::GrantUser)]
    } else {
        seq![quiet(Step::GrantSystem), quiet(Step::GrantAdministrators)]
    }
}

/// After the engine is ready: provisioning, file permissions, and a clean stop.
pub open spec fn setup_tail(acl: bool, named_account: bool) -> Seq<Instr> {
    provision_steps() + grant_steps(acl, named_account) + seq![quiet(Step::StopServer)]
}

/// The cluster is there: the data directory holds the version marker.
pub open spec fn initialized(mode: DatabaseMode, cluster: ClusterState) -> bool {
    mode == DatabaseMode::Network || (cluster.data_dir_exists && cluster.marker_exists)
}

/// The initialization plan: nothing when there is nothing to do, else the
/// whole sequence from a wiped data directory.
pub open spec fn init_plan(mode: DatabaseMode, cluster: ClusterState, acl: bool, named_account: bool) -> Seq<
    Instr,
> {
    if initialized(mode, cluster) {
        Seq::empty()
    } else {
        setup_head() + poll_block(
            READY_BUDGET as nat,
            Then::JumpTo((9 + 2 * READY_BUDGET) as usize),
            Then::Fail(Failure::NotReady),
        ) + setup_tail(acl, named_account)
    }
}

/// The start plan: nothing in network mode or when this manager already
/// started the engine; else a short probe for an engine left running, and
/// only then the launch and the readiness poll.
pub open spec fn start_plan(mode: DatabaseMode, child: bool) -> Seq<Instr> {
    if mode == DatabaseMode::Network || child {
        Seq::empty()
    } else {
        poll_block(ORPHAN_PROBES as nat, Then::Succeed, Then::Continue) + seq![
            instr(Step::CheckServerBinary, Then::Continue, Then::Fail(Failure::MissingBinary)),
            instr(Step::Launch, Then::Continue, Then::Fail(Failure::Launch)),
        ] + poll_block(READY_BUDGET as nat, Then::Succeed, Then::Fail(Failure::NotReady))
    }
}

/// The stop plan: a best-effort fast shutdown, nothing in network mode.
pub open spec fn stop_plan(mode: DatabaseMode) -> Seq<Instr> {
    if mode == DatabaseMode::Network {
        Seq::empty()
    } else {
        seq![quiet(Step::StopServer)]
    }
}

/// Persisting a freshly generated record, before anything else happens.
pub open spec fn persist_plan(fresh: bool) -> Seq<Instr> {
    if fresh {
        seq![quiet(Step::CreateConfigDir), quiet(Step::SaveConfig)]
    } else {
        Seq::empty()
    }
}

/// Persisting a changed record; a failed write is reported.
pub open spec fn update_plan() -> Seq<Instr> {
    seq![instr(Step::SaveConfig, Then::Continue, Then::Fail(Failure::SaveConfig))]
}

/// The provisioning plan for the manager's database.
pub open spec fn ensure_plan(mode: DatabaseMode) -> Seq<Instr> {
    if mode == DatabaseMode::Network {
        Seq::empty()
    } else {
        provision_steps()
    }
}

/// The authorization plan for a named database.
pub open spec fn authorize_plan(mode: DatabaseMode) -> Seq<Instr> {
    if mode == DatabaseMode::Network {
        Seq::empty()
    } else {
        authorize_steps()
    }
}

fn push(v: &mut Vec<Instr>, step: Step, on_ok: Then, on_err: Then)
    ensures
        final(v)@ == old(v)@.push(instr(step, on_ok, on_err)),
{
    v.push(Instr { step, on_ok, on_err });
}

fn push_poll(v: &mut Vec<Instr>, n: usize, ready: Then, exhausted: Then)
    requires
        n > 0,
    ensures
        final(v)@ == old(v)@ + poll_block(n as nat, ready, exhausted),
{
    let ghost start = v@;
    let mut i: usize = 0;
    while i < n
        invariant
            i <= n,
            v@ == start + Seq::new(2 * i as nat, |k: int| poll_instr(n as nat, k, ready, exhausted)),
        decreases n - i,
    {
        push(v, Step::ProbeReady, ready, Then::Continue);
        if i + 1 == n {
            push(v, Step::Pause, exhausted, exhausted);
        } else {
            push(v, Step::Pause, Then::Continue, Then::Continue);
        }
        i = i + 1;
        assert(v@ =~= start + Seq::new(
            2 * i as nat,
            |k: int| poll_instr(n as nat, k, ready, exhausted),
        ));
    }
    assert(v@ =~= start + poll_block(n as nat, ready, exhausted));
}

fn push_authorize(v: &mut Vec<Instr>)
    ensures
        final(v)@ == old(v)@ + authorize_steps(),
{
    let ghost start = v@;
    push(v, Step::EnsureAppRole, Then::Continue, Then::Continue);
    push(v, Step::GrantOwnership, Then::Continue, Then::Warn(Failure::Grant));
    assert(v@ =~= start + authorize_steps());
}

fn push_provision(v: &mut Vec<Instr>)
    ensures
        final(v)@ == old(v)@ + provision_steps(),
{
    let ghost start = v@;
    push(v, Step::CreateDatabase, Then::Continue, Then::Continue);
    push_authorize(v);
    assert(v@ =~= start + provision_steps());
}

pub fn is_initialized(mode: DatabaseMode, cluster: ClusterState) -> (r: bool)
    ensures
        r == initialized(mode, cluster),
{
    mode == DatabaseMode::Network || (cluster.data_dir_exists && cluster.marker_exists)
}

pub fn build_init_plan(mode: DatabaseMode, cluster: ClusterState, acl: bool, named_account: bool) -> (r: Vec<
    Instr,
>)
    ensures
        r@ == init_plan(mode, cluster, acl, named_account),
{
    let mut v: Vec<Instr> = Vec::new();
    if is_initialized(mode, cluster) {
        assert(v@ =~= init_plan(mode, cluster, acl, named_account));
        return v;
    }
    push(&mut v, Step::RemoveDataDir, Then::Continue, Then::Continue);
    push(&mut v, Step::CreateDataDir, Then::Continue, Then::Fail(Failure::CreateDataDir));
    push(&mut v, Step::WriteSecretFile, Then::Continue, Then::Fail(Failure::WriteSecretFile));
    push(&mut v, Step::InitCluster, Then::Continue, Then::Hold(Failure::InitCluster));
    push(&mut v, Step::RemoveSecretFile, Then::Release, Then::Release);
    push(&mut v, Step::SaveConfig, Then::Continue, Then::Continue);
    push(
        &mut v,
        Step::WriteServerSettings,
        Then::Continue,
        Then::Fail(Failure::WriteServerSettings),
    );
    push(&mut v, Step::WriteAccessRules, Then::Continue, Then::Fail(Failure::WriteAccessRules));
    push(&mut v, Step::LaunchForSetup, Then::Continue, Then::Fail(Failure::Launch));
    assert(v@ =~= setup_head());
    push_poll(
        &mut v,
        READY_BUDGET,
        Then::JumpTo(9 + 2 * READY_BUDGET),
        Then::Fail(Failure::NotReady),
    );
    let ghost mid = v@;
    push_provision(&mut v);
    if acl {
        push(&mut v, Step::GrantSystem, Then::Continue, Then::Continue);
        push(&mut v, Step::GrantAdministrators, Then::Continue, Then::Continue);
        if named_account {
            push(&mut v, Step::GrantUser, Then::Continue, Then::Continue);
        }
    }
    push(&mut v, Step::StopServer, Then::Continue, Then::Continue);
    assert(v@ =~= mid + setup_tail(acl, named_account));
    v
}

pub fn build_start_plan(mode: DatabaseMode, child: bool) -> (r: Vec<Instr>)
    ensures
        r@ == start_plan(mode, child),
{
    let mut v: Vec<Instr> = Vec::new();
    if mode == DatabaseMode::Network || child {
        assert(v@ =~= start_plan(mode, child));
        return v;
    }
    push_poll(&mut v, ORPHAN_PROBES, Then::Succeed, Then::Continue);
    push(&mut v, Step::CheckServerBinary, Then::Continue, Then::Fail(Failure::MissingBinary));
    push(&mut v, Step::Launch, Then::Continue, Then::Fail(Failure::Launch));
    push_poll(&mut v, READY_BUDGET, Then::Succeed, Then::Fail(Failure::NotReady));
    assert(v@ =~= start_plan(mode, child));
    v
}

pub fn build_stop_plan(mode: DatabaseMode) -> (r: Vec<Instr>)
    ensures
        r@ == stop_plan(mode),
{
    let mut v: Vec<Instr> = Vec::new();
    if mode != DatabaseMode::Network {
        push(&mut v, Step::StopServer, Then::Continue, Then::Continue);
    }
    assert(v@ =~= stop_plan(mode));
    v
}

pub fn build_ensure_plan(mode: DatabaseMode) -> (r: Vec<Instr>)
    ensures
        r@ == ensure_plan(mode),
{
    let mut v: Vec<Instr> = Vec::new();
    if mode != DatabaseMode::Network {
        push_provision(&mut v);
    }
    assert(v@ =~= ensure_plan(mode));
    v
}

pub fn build_authorize_plan(mode: DatabaseMode) -> (r: Vec<Instr>)
    ensures
        r@ == authorize_plan(mode),
{
    let mut v: Vec<Instr> = Vec::new();
    if mode != DatabaseMode::Network {
        push_authorize(&mut v);
    }
    assert(v@ =~= authorize_plan(mode));
    v
}

} // verus!

verus! {

pub fn build_persist_plan(fresh: bool) -> (r: Vec<Instr>)
    ensures
        r@ == persist_plan(fresh),
{
    let mut v: Vec<Instr> = Vec::new();
    if fresh {
        push(&mut v, Step::CreateConfigDir, Then::Continue, Then::Continue);
        push(&mut v, Step::SaveConfig, Then::Continue, Then::Continue);
    }
    assert(v@ =~= persist_plan(fresh));
    v
}

pub fn build_update_plan() -> (r: Vec<Instr>)
    ensures
        r@ == update_plan(),
{
    let mut v: Vec<Instr> = Vec::new();
    push(&mut v, Step::SaveConfig, Then::Continue, Then::Fail(Failure::SaveConfig));
    assert(v@ =~= update_plan());
    v
}

} // verus!

verus! {

/// In network mode, initialization, start, stop and provisioning invoke no
/// tool at all, and a run of any of them ends at once with success.
pub proof fn lemma_network_mode_is_inert(
    cluster: ClusterState,
    child: bool,
    acl: bool,
    named_account: bool,
    database: Seq<char>,
    account: Seq<char>,
)
    ensures
        init_plan(DatabaseMode::Network, cluster, acl, named_account) == Seq::<Instr>::empty(),
        start_plan(DatabaseMode::Network, child) == Seq::<Instr>::empty(),
        stop_plan(DatabaseMode::Network) == Seq::<Instr>::empty(),
        ensure_plan(DatabaseMode::Network) == Seq::<Instr>::empty(),
        authorize_plan(DatabaseMode::Network) == Seq::<Instr>::empty(),
        started(Seq::empty(), database, account).end == Some(Ok::<(), crate::plan::FaultView>(())),
{
}

/// An engine that already answers on the configured port before `start` is
/// adopted: the first probe's success ends the start with success, and no
/// launch has happened.
pub proof fn lemma_reachable_engine_is_adopted(database: Seq<char>, account: Seq<char>)
    ensures
        ({
            let r0 = started(start_plan(DatabaseMode::Embedded, false), database, account);
            let r1 = advanced(r0, None);
            &&& r0.end is None
            &&& r0.steps[r0.pos].step == Step::ProbeReady
            &&& r1.end == Some(Ok::<(), crate::plan::FaultView>(()))
            &&& !r1.launched
        }),
{
    let p = start_plan(DatabaseMode::Embedded, false);
    let b = poll_block(ORPHAN_PROBES as nat, Then::Succeed, Then::Continue);
    assert(b[0] == instr(Step::ProbeReady, Then::Succeed, Then::Continue));
    assert(p[0] == b[0]);
}

/// A data directory without the version marker is not trusted: the
/// initialization plan removes it, creates it afresh and runs the full
/// cluster creation, whatever the removal itself gives.
pub proof fn lemma_unmarked_data_dir_is_rebuilt(
    acl: bool,
    named_account: bool,
    removal: Option<Seq<char>>,
    database: Seq<char>,
    account: Seq<char>,
)
    ensures
        ({
            let cluster = ClusterState { data_dir_exists: true, marker_exists: false };
            let p = init_plan(DatabaseMode::Embedded, cluster, acl, named_account);
            let r0 = started(p, database, account);
            let r1 = advanced(r0, removal);
            let r2 = advanced(r1, None);
            let r3 = advanced(r2, None);
            &&& r0.end is None && r0.pos == 0
            &&& p[0].step == Step::RemoveDataDir
            &&& r1.end is None && p[r1.pos].step == Step::CreateDataDir
            &&& r2.end is None && p[r2.pos].step == Step::WriteSecretFile
            &&& r3.end is None && p[r3.pos].step == Step::InitCluster
        }),
{
    let cluster = ClusterState { data_dir_exists: true, marker_exists: false };
    let p = init_plan(DatabaseMode::Embedded, cluster, acl, named_account);
    let h = setup_head();
    assert(p[0] == h[0]);
    assert(p[1] == h[1]);
    assert(p[2] == h[2]);
    assert(p[3] == h[3]);
}

/// The transient secret file is removed right after the cluster-creation
/// tool, whether the tool succeeded or failed.
pub proof fn lemma_secret_file_always_removed(acl: bool, named_account: bool, outcome: Option<Seq<char>>, database: Seq<char>, account: Seq<char>)
    ensures
        ({
            let cluster = ClusterState { data_dir_exists: false, marker_exists: false };
            let p = init_plan(DatabaseMode::Embedded, cluster, acl, named_account);
            let r0 = started(p, database, account);
            let r3 = advanced(advanced(advanced(r0, None), None), None);
            let r4 = advanced(r3, outcome);
            &&& p[r3.pos].step == Step::InitCluster
            &&& r4.end is None
            &&& p[r4.pos].step == Step::RemoveSecretFile
        }),
{
    let cluster = ClusterState { data_dir_exists: false, marker_exists: false };
    let p = init_plan(DatabaseMode::Embedded, cluster, acl, named_account);
    let h = setup_head();
    assert(p[0] == h[0]);
    assert(p[1] == h[1]);
    assert(p[2] == h[2]);
    assert(p[3] == h[3]);
    assert(p[4] == h[4]);
}

/// Running the bootstrap again on an initialized, running engine is a no-op:
/// no cluster creation, and no launch, whether this manager started the
/// engine (nothing to do) or finds it answering (the first probe ends the start).
pub proof fn lemma_second_bootstrap_is_noop(
    acl: bool,
    named_account: bool,
    database: Seq<char>,
    account: Seq<char>,
)
    ensures
        ({
            let cluster = ClusterState { data_dir_exists: true, marker_exists: true };
            &&& init_plan(DatabaseMode::Embedded, cluster, acl, named_account) == Seq::<Instr>::empty()
            &&& start_plan(DatabaseMode::Embedded, true) == Seq::<Instr>::empty()
            &&& started(Seq::empty(), database, account).end == Some(
                Ok::<(), crate::plan::FaultView>(()),
            )
            &&& !started(Seq::empty(), database, account).launched
            &&& advanced(started(start_plan(DatabaseMode::Embedded, false), database, account), None).end
                == Some(Ok::<(), crate::plan::FaultView>(()))
            &&& !advanced(started(start_plan(DatabaseMode::Embedded, false), database, account), None).launched
        }),
{
    lemma_reachable_engine_is_adopted(database, account);
}

} // verus!

verus! {

/// The run after `n` steps in a row all succeed.
pub open spec fn run_ok(v: RunnerView, n: nat) -> RunnerView
    decreases n,
{
    if n == 0 {
        v
    } else {
        run_ok(advanced(v, None), (n - 1) as nat)
    }
}

/// The run after `k` readiness probes in a row fail with `d`, each followed
/// by its pause.
pub open spec fn misses(v: RunnerView, k: nat, d: Seq<char>) -> RunnerView
    decreases k,
{
    if k == 0 {
        v
    } else {
        let w = misses(v, (k - 1) as nat, d);
        advanced(advanced(w, Some(d)), None)
    }
}

proof fn lemma_run_ok_split(v: RunnerView, a: nat, b: nat)
    ensures
        run_ok(v, a + b) == run_ok(run_ok(v, a), b),
    decreases a,
{
    if a > 0 {
        lemma_run_ok_split(advanced(v, None), (a - 1) as nat, b);
        assert((a + b - 1) as nat == (a - 1) as nat + b);
    }
}

/// Steps that go on to the next one when they succeed, with nothing kept.
proof fn lemma_run_through(v: RunnerView, n: nat)
    requires
        v.end is None,
        v.held is None,
        0 <= v.pos,
        v.pos + n <= v.steps.len(),
        forall|i: int|
            v.pos <= i < v.pos + n ==> (#[trigger] v.steps[i]).on_ok == Then::Continue
                || v.steps[i].on_ok == Then::Release,
    ensures
        run_ok(v, n).pos == v.pos + n,
        run_ok(v, n).steps == v.steps,
        run_ok(v, n).held is None,
        v.pos + n < v.steps.len() ==> run_ok(v, n).end is None,
        v.pos + n == v.steps.len() && n > 0 ==> run_ok(v, n).end == Some(
            Ok::<(), crate::plan::FaultView>(()),
        ),
    decreases n,
{
    if n > 0 {
        let w = advanced(v, None);
        assert(v.pos <= v.pos < v.pos + n);
        assert(v.steps[v.pos].on_ok == Then::Continue || v.steps[v.pos].on_ok == Then::Release);
        assert(run_ok(w, 0) == w);
        assert(run_ok(v, n) == run_ok(w, (n - 1) as nat));
        if n > 1 {
            assert forall|i: int| w.pos <= i < w.pos + (n - 1) implies (#[trigger] w.steps[i]).on_ok
                == Then::Continue || w.steps[i].on_ok == Then::Release by {
                assert(v.pos <= i < v.pos + n);
            }
            lemma_run_through(w, (n - 1) as nat);
        }
    }
}

/// Failed probes inside a poll block move on to the next probe.
proof fn lemma_misses(v: RunnerView, base: int, n: nat, k: nat, ready: Then, exhausted: Then, d: Seq<char>)
    requires
        v.end is None,
        v.pos == base,
        0 <= base,
        base + 2 * n <= v.steps.len(),
        v.steps.subrange(base, base + 2 * n) == poll_block(n, ready, exhausted),
        k < n || (k == n && exhausted == Then::Continue),
        base + 2 * k < v.steps.len(),
    ensures
        misses(v, k, d).end is None,
        misses(v, k, d).pos == base + 2 * k,
        misses(v, k, d).steps == v.steps,
        misses(v, k, d).launched == v.launched,
    decreases k,
{
    if k > 0 {
        lemma_misses(v, base, n, (k - 1) as nat, ready, exhausted, d);
        let w = misses(v, (k - 1) as nat, d);
        let j = 2 * (k - 1);
        assert(v.steps[base + j] == poll_block(n, ready, exhausted)[j]);
        assert(v.steps[base + j + 1] == poll_block(n, ready, exhausted)[j + 1]);
        assert(j % 2 == 0);
        assert((j + 1) % 2 == 1);
    }
}

/// A cluster creation whose every step succeeds ends with success, and its
/// last step is the clean stop of the engine.
pub proof fn lemma_full_setup_succeeds(
    cluster: ClusterState,
    acl: bool,
    named_account: bool,
    database: Seq<char>,
    account: Seq<char>,
)
    requires
        !initialized(DatabaseMode::Embedded, cluster),
    ensures
        ({
            let p = init_plan(DatabaseMode::Embedded, cluster, acl, named_account);
            let r0 = started(p, database, account);
            let last = (p.len() - 2 * READY_BUDGET + 1) as nat;
            &&& run_ok(r0, (last - 1) as nat).end is None
            &&& p[run_ok(r0, (last - 1) as nat).pos].step == Step::StopServer
            &&& run_ok(r0, last).end == Some(Ok::<(), crate::plan::FaultView>(()))
        }),
{
    let p = init_plan(DatabaseMode::Embedded, cluster, acl, named_account);
    let h = setup_head();
    let b = poll_block(READY_BUDGET as nat, Then::JumpTo((9 + 2 * READY_BUDGET) as usize), Then::Fail(Failure::NotReady));
    let t = setup_tail(acl, named_account);
    let jump = 9 + 2 * READY_BUDGET;
    assert(p == h + b + t);
    assert(p.len() == jump + t.len());
    let r0 = started(p, database, account);
    assert forall|i: int| 0 <= i < 9 implies (#[trigger] p[i]).on_ok == Then::Continue
        || p[i].on_ok == Then::Release by {
        assert(p[i] == h[i]);
    }
    lemma_run_through(r0, 9);
    let r9 = run_ok(r0, 9);
    assert(p[9] == b[0]);
    let r10 = advanced(r9, None);
    assert(r10.pos == jump);
    assert(run_ok(r10, 0) == r10);
    assert(run_ok(r9, 1) == r10);
    lemma_run_ok_split(r0, 9, 1);
    assert forall|i: int| jump <= i < jump + t.len() implies (#[trigger] p[i]).on_ok == Then::Continue
        || p[i].on_ok == Then::Release by {
        assert(p[i] == t[i - jump]);
    }
    lemma_run_through(r10, t.len());
    lemma_run_through(r10, (t.len() - 1) as nat);
    let last = (t.len() + 10) as nat;
    lemma_run_ok_split(r0, 10, t.len());
    lemma_run_ok_split(r0, 10, (t.len() - 1) as nat);
    assert(p[p.len() - 1] == t[t.len() - 1]);
}

/// A start that finds no engine, launches one, and sees it answer within
/// the readiness budget ends with success and keeps the evidence of the launch.
pub proof fn lemma_start_after_launch(k: nat, d: Seq<char>, database: Seq<char>, account: Seq<char>)
    requires
        k < READY_BUDGET,
    ensures
        ({
            let p = start_plan(DatabaseMode::Embedded, false);
            let r4 = misses(started(p, database, account), ORPHAN_PROBES as nat, d);
            let r6 = advanced(advanced(r4, None), None);
            let r7 = misses(r6, k, d);
            let r8 = advanced(r7, None);
            &&& p[r4.pos].step == Step::CheckServerBinary
            &&& p[r4.pos + 1].step == Step::Launch
            &&& r6.end is None && r6.launched
            &&& p[r7.pos].step == Step::ProbeReady
            &&& r8.end == Some(Ok::<(), crate::plan::FaultView>(()))
            &&& r8.launched
        }),
{
    let p = start_plan(DatabaseMode::Embedded, false);
    let b1 = poll_block(ORPHAN_PROBES as nat, Then::Succeed, Then::Continue);
    let mid = seq![
        instr(Step::CheckServerBinary, Then::Continue, Then::Fail(Failure::MissingBinary)),
        instr(Step::Launch, Then::Continue, Then::Fail(Failure::Launch)),
    ];
    let b2 = poll_block(READY_BUDGET as nat, Then::Succeed, Then::Fail(Failure::NotReady));
    assert(p == b1 + mid + b2);
    assert(p.subrange(0, 4) =~= b1);
    assert(p.subrange(6, 6 + 2 * READY_BUDGET) =~= b2);
    let r0 = started(p, database, account);
    lemma_misses(r0, 0, ORPHAN_PROBES as nat, ORPHAN_PROBES as nat, Then::Succeed, Then::Continue, d);
    let r4 = misses(r0, ORPHAN_PROBES as nat, d);
    assert(p[4] == mid[0]);
    assert(p[5] == mid[1]);
    let r6 = advanced(advanced(r4, None), None);
    lemma_misses(r6, 6, READY_BUDGET as nat, k, Then::Succeed, Then::Fail(Failure::NotReady), d);
    let r7 = misses(r6, k, d);
    assert(p[6 + 2 * k as int] == b2[2 * k as int]);
    assert((2 * k) % 2 == 0);
}

} // verus!
