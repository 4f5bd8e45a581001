use vstd::prelude::*;

verus! {

/// One unit of outside work in a lifecycle operation. What each stands for in
/// concrete terms (paths, command lines, file contents) is given by
/// `PostgresManager::task`.
#[derive(Clone, Copy, Debug, PartialEq, Eq, Structural)]
pub enum Step {
    CreateConfigDir,
    RemoveDataDir,
    CreateDataDir,
    WriteSecretFile,
    InitCluster,
    RemoveSecretFile,
    SaveConfig,
    WriteServerSettings,
    WriteAccessRules,
    /// Launch the engine for the duration of the setup.
    LaunchForSetup,
    /// Launch the engine and keep the evidence that this manager started it.
    Launch,
    CheckServerBinary,
    ProbeReady,
    Pause,
    CreateDatabase,
    EnsureAppRole,
    GrantOwnership,
    GrantSystem,
    GrantAdministrators,
    GrantUser,
    StopServer,
}

/// The kind of a failure, which decides the wording of its message.
#[derive(Clone, Copy, Debug, PartialEq, Eq, Structural)]
pub enum Failure {
    SaveConfig,
    CreateDataDir,
    WriteSecretFile,
    InitCluster,
    WriteServerSettings,
    WriteAccessRules,
    Launch,
    MissingBinary,
    NotReady,
    Grant,
}

/// What follows a step, once its outcome is known.
#[derive(Clone, Copy, Debug, PartialEq, Eq, Structural)]
pub enum Then {
    /// Go on with the next step.
    Continue,
    /// Go on with the step at this index; past the end, the run succeeds.
    JumpTo(usize),
    /// End the run with success.
    Succeed,
    /// End the run with this failure, carrying the step's diagnostic.
    Fail(Failure),
    /// Keep this failure, with the step's diagnostic, and go on.
    Hold(Failure),
    /// End the run with the kept failure if there is one, else go on.
    Release,
    /// Record a warning with the step's diagnostic and go on.
    Warn(Failure),
}

#[derive(Clone, Copy, Debug, PartialEq, Eq, Structural)]
pub struct Instr {
    pub step: Step,
    pub on_ok: Then,
    pub on_err: Then,
}

/// What carrying out a step gave.
pub enum Outcome {
    Done,
    /// The step failed, with a diagnostic text.
    Failed(String),
}

impl View for Outcome {
    type V = Option<Seq<char>>;

    open spec fn view(&self) -> Option<Seq<char>> {
        match self {
            Outcome::Done => None,
            Outcome::Failed(d) => Some(d@),
        }
    }
}

/// A failure with the diagnostic of the step that met it.
pub struct Fault {
    pub failure: Failure,
    pub detail: String,
}

pub struct FaultView {
    pub failure: Failure,
    pub detail: Seq<char>,
}

impl View for Fault {
    type V = FaultView;

    open spec fn view(&self) -> FaultView {
        FaultView { failure: self.failure, detail: self.detail@ }
    }
}

impl Fault {
    pub fn duplicate(&self) -> (r: Fault)
        ensures
            r@ == self@,
    {
        Fault { failure: self.failure, detail: self.detail.clone() }
    }
}

/// A sequence of steps together with the database that its provisioning
/// steps address.
pub struct Plan {
    pub steps: Vec<Instr>,
    pub database: String,
    /// The operating-system account that is granted access to the data directory.
    pub account: String,
}

/// Carries a plan through, one outcome at a time.
pub struct Runner {
    plan: Plan,
    pos: usize,
    held: Option<Fault>,
    warnings: Vec<Fault>,
    launched: bool,
    end: Option<Result<(), Fault>>,
}

pub struct RunnerView {
    pub steps: Seq<Instr>,
    pub database: Seq<char>,
    pub account: Seq<char>,
    pub pos: int,
    pub held: Option<FaultView>,
    pub warnings: Seq<FaultView>,
    pub launched: bool,
    pub end: Option<Result<(), FaultView>>,
}

pub open spec fn fault_view(f: Option<Fault>) -> Option<FaultView> {
    match f {
        Some(x) => Some(x@),
        None => None,
    }
}

pub open spec fn end_view(e: Option<Result<(), Fault>>) -> Option<Result<(), FaultView>> {
    match e {
        Some(Ok(())) => Some(Ok(())),
        Some(Err(x)) => Some(Err(x@)),
        None => None,
    }
}

impl View for Runner {
    type V = RunnerView;

    closed spec fn view(&self) -> RunnerView {
        RunnerView {
            steps: self.plan.steps@,
            database: self.plan.database@,
            account: self.plan.account@,
            pos: self.pos as int,
            held: fault_view(self.held),
            warnings: self.warnings@.map_values(|w: Fault| w@),
            launched: self.launched,
            end: end_view(self.end),
        }
    }
}

/// A run whose position has left the plan has succeeded, unless it ended otherwise.
pub open spec fn settled(v: RunnerView) -> RunnerView {
    if v.end is None && !(0 <= v.pos < v.steps.len()) {
        RunnerView { end: Some(Ok(())), ..v }
    } else {
        v
    }
}

/// The run as it stands before any outcome.
pub open spec fn started(steps: Seq<Instr>, database: Seq<char>, account: Seq<char>) -> RunnerView {
    settled(
        RunnerView {
            steps,
            database,
            account,
            pos: 0,
            held: None,
            warnings: Seq::empty(),
            launched: false,
            end: None,
        },
    )
}

/// The effect of `then` on a run, with `detail` the diagnostic of the step.
pub open spec fn follow(v: RunnerView, then: Then, detail: Seq<char>) -> RunnerView {
    match then {
        Then::Continue => RunnerView { pos: v.pos + 1, ..v },
        Then::JumpTo(t) => RunnerView { pos: t as int, ..v },
        Then::Succeed => RunnerView { end: Some(Ok(())), ..v },
        Then::Fail(f) => RunnerView {
            end: Some(Err(FaultView { failure: f, detail })),
            ..v
        },
        Then::Hold(f) => RunnerView {
            pos: v.pos + 1,
            held: Some(FaultView { failure: f, detail }),
            ..v
        },
        Then::Release => match v.held {
            Some(h) => RunnerView { end: Some(Err(h)), ..v },
            None => RunnerView { pos: v.pos + 1, ..v },
        },
        Then::Warn(f) => RunnerView {
            pos: v.pos + 1,
            warnings: v.warnings.push(FaultView { failure: f, detail }),
            ..v
        },
    }
}

/// The run after the current step gave `outcome` (`None` for success,
/// else the diagnostic).
pub open spec fn advanced(v: RunnerView, outcome: Option<Seq<char>>) -> RunnerView {
    let instr = v.steps[v.pos];
    let v1 = if instr.step == Step::Launch && outcome is None {
        RunnerView { launched: true, ..v }
    } else {
        v
    };
    match outcome {
        None => settled(follow(v1, instr.on_ok, Seq::empty())),
        Some(d) => settled(follow(v1, instr.on_err, d)),
    }
}

impl Runner {
    pub closed spec fn wf(&self) -> bool {
        self.end is None ==> self.pos < self.plan.steps@.len()
    }

    pub fn new(plan: Plan) -> (r: Runner)
        ensures
            r@ == started(plan.steps@, plan.database@, plan.account@),
            r.wf(),
    {
        let n = plan.steps.len();
        let end = if n == 0 {
            Some(Ok(()))
        } else {
            None
        };
        let r = Runner { plan, pos: 0, held: None, warnings: Vec::new(), launched: false, end };
        assert(r@.warnings =~= Seq::empty());
        r
    }

    /// The step to carry out next, or `None` once the run has ended.
    pub fn current(&self) -> (r: Option<Step>)
        requires
            self.wf(),
        ensures
            self@.end is None ==> r == Some(self@.steps[self@.pos].step),
            self@.end is Some ==> r is None,
    {
        match self.end {
            Some(_) => None,
            None => Some(self.plan.steps[self.pos].step),
        }
    }

    /// The database that the plan's provisioning steps address.
    pub fn database(&self) -> (r: &String)
        ensures
            r@ == self@.database,
    {
        &self.plan.database
    }

    /// The account that the plan's permission steps grant access to.
    pub fn account(&self) -> (r: &String)
        ensures
            r@ == self@.account,
    {
        &self.plan.account
    }

    /// Whether a `Launch` step of this run succeeded.
    pub fn launched(&self) -> (r: bool)
        ensures
            r == self@.launched,
    {
        self.launched
    }

    /// How the run ended, once it has.
    pub fn result(&self) -> (r: Option<Result<(), Fault>>)
        ensures
            end_view(r) == self@.end,
    {
        match &self.end {
            None => None,
            Some(Ok(())) => Some(Ok(())),
            Some(Err(f)) => Some(Err(f.duplicate())),
        }
    }

    /// The warnings recorded so far, oldest first.
    pub fn warnings(&self) -> (r: &Vec<Fault>)
        ensures
            r@.map_values(|w: Fault| w@) == self@.warnings,
    {
        &self.warnings
    }

    /// Takes the outcome of the current step and moves on.
    pub fn advance(&mut self, outcome: Outcome)
        requires
            old(self).wf(),
            old(self)@.end is None,
        ensures
            final(self).wf(),
            final(self)@ == advanced(old(self)@, outcome@),
    {
        let n = self.plan.steps.len();
        let instr = self.plan.steps[self.pos];
        if instr.step == Step::Launch && matches!(outcome, Outcome::Done) {
            self.launched = true;
        }
        let (then, detail) = match outcome {
            Outcome::Done => (instr.on_ok, String::new()),
            Outcome::Failed(d) => (instr.on_err, d),
        };
        let ghost v1 = self@;
        match then {
            Then::Continue => {
                self.pos = self.pos + 1;
            },
            Then::JumpTo(t) => {
                self.pos = t;
            },
            Then::Succeed => {
                self.end = Some(Ok(()));
            },
            Then::Fail(f) => {
                self.end = Some(Err(Fault { failure: f, detail }));
            },
            Then::Hold(f) => {
                self.held = Some(Fault { failure: f, detail });
                self.pos = self.pos + 1;
            },
            Then::Release => {
                match &self.held {
                    Some(h) => {
                        self.end = Some(Err(h.duplicate()));
                    },
                    None => {
                        self.pos = self.pos + 1;
                    },
                }
            },
            Then::Warn(f) => {
                self.warnings.push(Fault { failure: f, detail });
                self.pos = self.pos + 1;
                assert(self@.warnings =~= v1.warnings.push(FaultView { failure: f, detail: detail@ }));
            },
        }
        if self.end.is_none() && self.pos >= self.plan.steps.len() {
            self.end = Some(Ok(()));
        }
        assert(self@ == advanced(old(self)@, outcome@));
    }
}

} // verus!
