//! The two stages of a run, the commands they invoke, and how the end of a
//! command is classified.

use crate::line::Tag;
use vstd::prelude::*;
use vstd::string::StringExecFns;

verus! {

/// The build tool that both stages invoke.
pub const BUILD_TOOL: &'static str = "cargo";

/// One phase of a run; each maps to at most one external command.
#[derive(Clone, Copy, Debug, PartialEq, Eq, Structural)]
pub enum Stage {
    /// Compiles the learner's project into the cache directory.
    Build,
    /// Builds and runs the grading binary against the project.
    Test,
}

/// An external command: what to start, with which arguments, and where.
#[derive(Debug, PartialEq, Eq)]
pub struct Invocation {
    pub program: String,
    pub args: Vec<String>,
    pub working_dir: String,
}

/// An [`Invocation`] with its strings as sequences of characters.
pub struct InvocationView {
    pub program: Seq<char>,
    pub args: Seq<Seq<char>>,
    pub working_dir: Seq<char>,
}

impl View for Invocation {
    type V = InvocationView;

    open spec fn view(&self) -> InvocationView {
        InvocationView {
            program: self.program@,
            args: self.args.deep_view(),
            working_dir: self.working_dir@,
        }
    }
}

/// The arguments that `stage` passes to the build tool, with the build
/// output directed into `cache_dir`.
pub open spec fn args_of(stage: Stage, cache_dir: Seq<char>) -> Seq<Seq<char>> {
    match stage {
        Stage::Build => seq!["build"@, "--release"@, "--target-dir"@, cache_dir],
        Stage::Test => seq!["run"@, "--quiet"@, "--release"@, "--target-dir"@, cache_dir],
    }
}

/// The command of `stage`: the build tool with the stage's arguments, run
/// in the project directory.
pub open spec fn command_of(
    stage: Stage,
    project_dir: Seq<char>,
    cache_dir: Seq<char>,
) -> InvocationView {
    InvocationView {
        program: BUILD_TOOL@,
        args: args_of(stage, cache_dir),
        working_dir: project_dir,
    }
}

/// What the caller observed of one command.
#[derive(Debug, PartialEq, Eq)]
pub enum ProcessReport {
    /// The operating system could not start the command.
    SpawnError { cause: String },
    /// The command ran and was waited for. `exit_code` is `None` where the
    /// process ended without one (it was killed by a signal);
    /// `streams_intact` says that every line of both output streams could
    /// be read.
    Exited { exit_code: Option<i32>, streams_intact: bool },
}

/// A [`ProcessReport`] with its cause as a sequence of characters.
pub enum ProcessReportView {
    SpawnError { cause: Seq<char> },
    Exited { exit_code: Option<i32>, streams_intact: bool },
}

impl View for ProcessReport {
    type V = ProcessReportView;

    open spec fn view(&self) -> ProcessReportView {
        match self {
            ProcessReport::SpawnError { cause } => ProcessReportView::SpawnError { cause: cause@ },
            ProcessReport::Exited { exit_code, streams_intact } => ProcessReportView::Exited {
                exit_code: *exit_code,
                streams_intact: *streams_intact,
            },
        }
    }
}

/// How a stage ended.
#[derive(Debug, PartialEq, Eq)]
pub enum StageOutcome {
    /// The command exited with code 0 and all its output was read, or the
    /// stage had nothing to run.
    Succeeded,
    /// The command ran and did not succeed; `exit_code` is the code it
    /// exited with, if it exited with one.
    Failed { exit_code: Option<i32> },
    /// The command could not be started.
    SpawnFailed { cause: String },
}

/// A [`StageOutcome`] with its cause as a sequence of characters.
pub enum StageOutcomeView {
    Succeeded,
    Failed { exit_code: Option<i32> },
    SpawnFailed { cause: Seq<char> },
}

impl View for StageOutcome {
    type V = StageOutcomeView;

    open spec fn view(&self) -> StageOutcomeView {
        match self {
            StageOutcome::Succeeded => StageOutcomeView::Succeeded,
            StageOutcome::Failed { exit_code } => StageOutcomeView::Failed { exit_code: *exit_code },
            StageOutcome::SpawnFailed { cause } => StageOutcomeView::SpawnFailed { cause: cause@ },
        }
    }
}

/// The outcome of a stage whose command was reported as `report`.
///
/// A command that could not be started gives `SpawnFailed` with the same
/// cause. One that exited with code 0 and whose output was read in full
/// gives `Succeeded`. Every other end is `Failed`, with the exit code kept.
pub open spec fn outcome_of(report: ProcessReportView) -> StageOutcomeView {
    match report {
        ProcessReportView::SpawnError { cause } => StageOutcomeView::SpawnFailed { cause },
        ProcessReportView::Exited { exit_code, streams_intact } => {
            if exit_code == Some(0i32) && streams_intact {
                StageOutcomeView::Succeeded
            } else {
                StageOutcomeView::Failed { exit_code }
            }
        },
    }
}

/// The outcome of a stage that the state of the cache settles without any
/// command: the build stage counts as succeeded where the cache directory
/// exists. `None` where the stage has to run its command.
pub open spec fn outcome_from_cache(stage: Stage, cache_exists: bool) -> Option<StageOutcomeView> {
    if stage == Stage::Build && cache_exists {
        Some(StageOutcomeView::Succeeded)
    } else {
        None
    }
}

/// Classifies the end of a stage's command.
pub fn classify(report: ProcessReport) -> (outcome: StageOutcome)
    ensures
        outcome@ == outcome_of(report@),
{
    match report {
        ProcessReport::SpawnError { cause } => StageOutcome::SpawnFailed { cause },
        ProcessReport::Exited { exit_code, streams_intact } => {
            let clean = match exit_code {
                Some(code) => code == 0 && streams_intact,
                None => false,
            };
            if clean {
                StageOutcome::Succeeded
            } else {
                StageOutcome::Failed { exit_code }
            }
        },
    }
}

impl Stage {
    /// The tag under which the output of the stage's command is logged.
    pub open spec fn tag(self) -> Tag {
        match self {
            Stage::Build => Tag::Build,
            Stage::Test => Tag::Program,
        }
    }

    /// The tag under which the output of the stage's command is logged.
    pub fn log_tag(self) -> (tag: Tag)
        ensures
            tag == self.tag(),
    {
        match self {
            Stage::Build => Tag::Build,
            Stage::Test => Tag::Program,
        }
    }

    /// Looks at the cache before the stage runs: `Some` with the outcome
    /// where the stage is settled without its command, `None` where the
    /// command has to run.
    pub fn settle_from_cache(self, cache_exists: bool) -> (settled: Option<StageOutcome>)
        ensures
            match settled {
                Some(outcome) => outcome_from_cache(self, cache_exists) == Some(outcome@),
                None => outcome_from_cache(self, cache_exists) is None,
            },
    {
        match self {
            Stage::Build => if cache_exists {
                Some(StageOutcome::Succeeded)
            } else {
                None
            },
            Stage::Test => None,
        }
    }

    /// The command of the stage for the given directories.
    pub fn command(self, project_dir: &str, cache_dir: &str) -> (invocation: Invocation)
        ensures
            invocation@ == command_of(self, project_dir@, cache_dir@),
    {
        let mut args: Vec<String> = Vec::new();
        match self {
            Stage::Build => {
                args.push(String::from_str("build"));
            },
            Stage::Test => {
                args.push(String::from_str("run"));
                args.push(String::from_str("--quiet"));
            },
        }
        args.push(String::from_str("--release"));
        args.push(String::from_str("--target-dir"));
        args.push(String::from_str(cache_dir));
        assert(args.deep_view() =~= args_of(self, cache_dir@));
        Invocation {
            program: String::from_str(BUILD_TOOL),
            args,
            working_dir: String::from_str(project_dir),
        }
    }
}

/// A process that exits with code 0, and whose output was read in full,
/// makes its stage succeed; one that exits with any other code makes it
/// fail with that code.
pub proof fn law_exit_code_mapping(code: i32)
    ensures
        code == 0 ==> outcome_of(
            ProcessReportView::Exited { exit_code: Some(code), streams_intact: true },
        ) == StageOutcomeView::Succeeded,
        code != 0 ==> forall|streams_intact: bool|
            #[trigger] outcome_of(
                ProcessReportView::Exited { exit_code: Some(code), streams_intact },
            ) == (StageOutcomeView::Failed { exit_code: Some(code) }),
{
}

} // verus!
