//! The run as a state machine: build, then test, then report.
//!
//! The machine decides and the caller acts. Every step takes what the caller
//! observed (an [`Event`]), and hands back the lines to print and the next
//! thing to do (an [`Action`]). The caller performs the action, which may
//! take long and touches the file system and other processes, and comes
//! back with the next event. A run is a single pass: nothing is retried.

use crate::line::{Line, LineView};
use crate::messages::{
    build_banner, build_banner_lines, build_failed_lines, build_failed_notice,
    build_not_started_lines, build_not_started_notice, build_succeeded_lines,
    build_succeeded_notice, catalog, copy_lines, test_banner, test_banner_lines,
    SubmissionResponse, SubmissionResponseView,
};
use crate::stage::{
    classify, command_of, outcome_from_cache, outcome_of, Invocation, InvocationView,
    ProcessReport, ProcessReportView, Stage, StageOutcome, StageOutcomeView,
};
use vstd::prelude::*;
use vstd::string::StringExecFns;

verus! {

/// The learner's project, relative to where the grader is started.
pub const USER_PROJECT_DIR: &'static str = "../dcs-rsm";

/// Where build output is kept from one run to the next. Its existence
/// alone makes a run skip the build, however old its contents are, and
/// nothing locks it: two runs at once against the same directory are not
/// safe.
pub const TARGET_DIR: &'static str = "/tmp/dcs-rsm-target";

/// Where a run stands.
#[derive(Clone, Copy, Debug, PartialEq, Eq, Structural)]
pub enum Phase {
    /// Nothing has happened yet.
    Init,
    /// The build stage. `invoked` is false while the cache directory has
    /// not been looked at, and true while the build command runs.
    Building { invoked: bool },
    /// The test command runs.
    Testing,
    /// The run is over: both stages succeeded.
    Succeeded,
    /// The run is over: a stage did not succeed.
    Failed,
}

/// What the caller observed.
#[derive(Debug, PartialEq, Eq)]
pub enum Event {
    /// The run begins.
    Start,
    /// The cache directory was looked for.
    CacheProbed { exists: bool },
    /// The command of the current stage is over, or could not be started.
    StageEnded { report: ProcessReport },
}

/// An [`Event`] with its strings as sequences of characters.
pub enum EventView {
    Start,
    CacheProbed { exists: bool },
    StageEnded { report: ProcessReportView },
}

impl View for Event {
    type V = EventView;

    open spec fn view(&self) -> EventView {
        match self {
            Event::Start => EventView::Start,
            Event::CacheProbed { exists } => EventView::CacheProbed { exists: *exists },
            Event::StageEnded { report } => EventView::StageEnded { report: report@ },
        }
    }
}

/// What the caller is to do next.
#[derive(Debug, PartialEq, Eq)]
pub enum Action {
    /// Find out whether the directory exists, and report `CacheProbed`.
    ProbeCache { cache_dir: String },
    /// Start the command, stream its output under the stage's tag, wait
    /// for it, and report `StageEnded`.
    Run { stage: Stage, invocation: Invocation },
    /// Nothing: the run is over.
    Finish,
}

/// An [`Action`] with its strings as sequences of characters.
pub enum ActionView {
    ProbeCache { cache_dir: Seq<char> },
    Run { stage: Stage, invocation: InvocationView },
    Finish,
}

impl View for Action {
    type V = ActionView;

    open spec fn view(&self) -> ActionView {
        match self {
            Action::ProbeCache { cache_dir } => ActionView::ProbeCache { cache_dir: cache_dir@ },
            Action::Run { stage, invocation } => ActionView::Run {
                stage: *stage,
                invocation: invocation@,
            },
            Action::Finish => ActionView::Finish,
        }
    }
}

/// The answer to an event: what to print now, and what to do then.
#[derive(Debug, PartialEq, Eq)]
pub struct Step {
    pub lines: Vec<Line>,
    pub action: Action,
}

/// The answer to an event that came out of turn: the phase it arrived in,
/// which expects another event or none at all.
#[derive(Clone, Copy, Debug, PartialEq, Eq, Structural)]
pub struct OutOfTurn {
    pub phase: Phase,
}

/// A move of the machine: the phase it enters, the lines it prints, and
/// the action that it asks for.
pub struct Transition {
    pub phase: Phase,
    pub lines: Seq<LineView>,
    pub action: ActionView,
}

/// The machine as a mathematical value.
pub struct OrchestratorView {
    pub phase: Phase,
    pub catalog: SubmissionResponseView,
    pub project_dir: Seq<char>,
    pub cache_dir: Seq<char>,
}

impl OrchestratorView {
    /// The request to run the command of `stage`.
    pub open spec fn run(self, stage: Stage) -> ActionView {
        ActionView::Run { stage, invocation: command_of(stage, self.project_dir, self.cache_dir) }
    }

    /// Whether `event` is the one that the current phase waits for.
    pub open spec fn accepts(self, event: EventView) -> bool {
        match (self.phase, event) {
            (Phase::Init, EventView::Start) => true,
            (Phase::Building { invoked: false }, EventView::CacheProbed { .. }) => true,
            (Phase::Building { invoked: true }, EventView::StageEnded { .. }) => true,
            (Phase::Testing, EventView::StageEnded { .. }) => true,
            _ => false,
        }
    }

    /// The move that follows the build stage. On success the test stage is
    /// next; any other outcome ends the run with a notice of its own. `ran`
    /// says whether the build command ran at all.
    pub open spec fn after_build(self, outcome: StageOutcomeView, ran: bool) -> Transition {
        match outcome {
            StageOutcomeView::Succeeded => Transition {
                phase: Phase::Testing,
                lines: if ran {
                    build_succeeded_notice() + test_banner()
                } else {
                    test_banner()
                },
                action: self.run(Stage::Test),
            },
            StageOutcomeView::Failed { .. } => Transition {
                phase: Phase::Failed,
                lines: build_failed_notice(),
                action: ActionView::Finish,
            },
            StageOutcomeView::SpawnFailed { cause } => Transition {
                phase: Phase::Failed,
                lines: build_not_started_notice(cause),
                action: ActionView::Finish,
            },
        }
    }

    /// The move that follows the test stage: the run ends with the success
    /// group of the catalog, or with its failure group.
    pub open spec fn after_test(self, outcome: StageOutcomeView) -> Transition {
        match outcome {
            StageOutcomeView::Succeeded => Transition {
                phase: Phase::Succeeded,
                lines: self.catalog.on_success,
                action: ActionView::Finish,
            },
            _ => Transition {
                phase: Phase::Failed,
                lines: self.catalog.on_failure,
                action: ActionView::Finish,
            },
        }
    }

    /// The move that answers `event`, where the machine accepts it.
    pub open spec fn transition(self, event: EventView) -> Transition
        recommends
            self.accepts(event),
    {
        match (self.phase, event) {
            (Phase::Init, EventView::Start) => Transition {
                phase: Phase::Building { invoked: false },
                lines: self.catalog.on_init,
                action: ActionView::ProbeCache { cache_dir: self.cache_dir },
            },
            (Phase::Building { invoked: false }, EventView::CacheProbed { exists }) => {
                match outcome_from_cache(Stage::Build, exists) {
                    Some(outcome) => self.after_build(outcome, false),
                    None => Transition {
                        phase: Phase::Building { invoked: true },
                        lines: build_banner(),
                        action: self.run(Stage::Build),
                    },
                }
            },
            (Phase::Building { invoked: true }, EventView::StageEnded { report }) => {
                self.after_build(outcome_of(report), true)
            },
            (Phase::Testing, EventView::StageEnded { report }) => {
                self.after_test(outcome_of(report))
            },
            _ => Transition { phase: self.phase, lines: Seq::empty(), action: ActionView::Finish },
        }
    }

    /// The machine in another phase.
    pub open spec fn in_phase(self, phase: Phase) -> OrchestratorView {
        OrchestratorView { phase, ..self }
    }

    /// The machine after `event`; an event out of turn changes nothing.
    pub open spec fn after(self, event: EventView) -> OrchestratorView {
        if self.accepts(event) {
            self.in_phase(self.transition(event).phase)
        } else {
            self
        }
    }
}

/// Sequences a run. It owns the response catalog and the two directories,
/// none of which changes during the run.
#[derive(Debug)]
pub struct Orchestrator {
    phase: Phase,
    catalog: SubmissionResponse,
    project_dir: String,
    cache_dir: String,
}

impl View for Orchestrator {
    type V = OrchestratorView;

    closed spec fn view(&self) -> OrchestratorView {
        OrchestratorView {
            phase: self.phase,
            catalog: self.catalog@,
            project_dir: self.project_dir@,
            cache_dir: self.cache_dir@,
        }
    }
}

impl Orchestrator {
    /// A run that has not begun, for the project in `project_dir` and the
    /// build cache in `cache_dir`.
    pub fn new(project_dir: &str, cache_dir: &str) -> (orchestrator: Orchestrator)
        ensures
            orchestrator@ == (OrchestratorView {
                phase: Phase::Init,
                catalog: catalog(),
                project_dir: project_dir@,
                cache_dir: cache_dir@,
            }),
    {
        Orchestrator {
            phase: Phase::Init,
            catalog: SubmissionResponse::new(),
            project_dir: String::from_str(project_dir),
            cache_dir: String::from_str(cache_dir),
        }
    }

    /// Where the run stands.
    pub fn phase(&self) -> (phase: Phase)
        ensures
            phase == self@.phase,
    {
        self.phase
    }

    /// The request to run the command of `stage`.
    fn run(&self, stage: Stage) -> (action: Action)
        ensures
            action@ == self@.run(stage),
    {
        Action::Run {
            stage,
            invocation: stage.command(self.project_dir.as_str(), self.cache_dir.as_str()),
        }
    }

    /// Leaves the build stage with `outcome`.
    fn leave_build(&mut self, outcome: StageOutcome, ran: bool) -> (step: Step)
        ensures
            final(self)@ == old(self)@.in_phase(old(self)@.after_build(outcome@, ran).phase),
            step.lines.deep_view() == old(self)@.after_build(outcome@, ran).lines,
            step.action@ == old(self)@.after_build(outcome@, ran).action,
    {
        match outcome {
            StageOutcome::Succeeded => {
                let mut lines = if ran {
                    build_succeeded_lines()
                } else {
                    Vec::new()
                };
                let ghost before = lines.deep_view();
                let mut banner = test_banner_lines();
                lines.append(&mut banner);
                assert(lines.deep_view() =~= before + test_banner());
                assert(Seq::<LineView>::empty() + test_banner() =~= test_banner());
                self.phase = Phase::Testing;
                Step { lines, action: self.run(Stage::Test) }
            },
            StageOutcome::Failed { exit_code: _ } => {
                self.phase = Phase::Failed;
                Step { lines: build_failed_lines(), action: Action::Finish }
            },
            StageOutcome::SpawnFailed { cause } => {
                self.phase = Phase::Failed;
                Step { lines: build_not_started_lines(cause.as_str()), action: Action::Finish }
            },
        }
    }

    /// Leaves the test stage with `outcome`.
    fn leave_test(&mut self, outcome: StageOutcome) -> (step: Step)
        ensures
            final(self)@ == old(self)@.in_phase(old(self)@.after_test(outcome@).phase),
            step.lines.deep_view() == old(self)@.after_test(outcome@).lines,
            step.action@ == old(self)@.after_test(outcome@).action,
    {
        match outcome {
            StageOutcome::Succeeded => {
                self.phase = Phase::Succeeded;
                Step { lines: copy_lines(self.catalog.on_success_messages()), action: Action::Finish }
            },
            _ => {
                self.phase = Phase::Failed;
                Step { lines: copy_lines(self.catalog.on_failure_messages()), action: Action::Finish }
            },
        }
    }

    /// Answers one event.
    ///
    /// An event that the current phase waits for moves the machine as
    /// [`OrchestratorView::transition`] says, and is answered with the
    /// lines and the action of that move. Any other event is refused and
    /// changes nothing.
    pub fn step(&mut self, event: Event) -> (result: Result<Step, OutOfTurn>)
        ensures
            final(self)@ == old(self)@.after(event@),
            match result {
                Ok(step) => {
                    &&& old(self)@.accepts(event@)
                    &&& step.lines.deep_view() == old(self)@.transition(event@).lines
                    &&& step.action@ == old(self)@.transition(event@).action
                },
                Err(refusal) => {
                    &&& !old(self)@.accepts(event@)
                    &&& refusal.phase == old(self)@.phase
                },
            },
    {
        match (self.phase, event) {
            (Phase::Init, Event::Start) => {
                self.phase = Phase::Building { invoked: false };
                Ok(
                    Step {
                        lines: copy_lines(self.catalog.on_init_messages()),
                        action: Action::ProbeCache { cache_dir: self.cache_dir.clone() },
                    },
                )
            },
            (Phase::Building { invoked: false }, Event::CacheProbed { exists }) => {
                match Stage::Build.settle_from_cache(exists) {
                    Some(outcome) => Ok(self.leave_build(outcome, false)),
                    None => {
                        self.phase = Phase::Building { invoked: true };
                        Ok(Step { lines: build_banner_lines(), action: self.run(Stage::Build) })
                    },
                }
            },
            (Phase::Building { invoked: true }, Event::StageEnded { report }) => {
                Ok(self.leave_build(classify(report), true))
            },
            (Phase::Testing, Event::StageEnded { report }) => {
                Ok(self.leave_test(classify(report)))
            },
            (phase, _) => Err(OutOfTurn { phase }),
        }
    }
}

} // verus!
