use grading_runner::line::Line;
use grading_runner::messages::{
    build_banner_lines, build_failed_lines, build_not_started_lines, build_succeeded_lines,
    test_banner_lines, SubmissionResponse,
};
use grading_runner::orchestrator::{
    Action, Event, Orchestrator, OutOfTurn, Phase, Step, TARGET_DIR, USER_PROJECT_DIR,
};
use grading_runner::stage::{ProcessReport, Stage};

struct Run {
    transcript: Vec<Line>,
    commands: Vec<Stage>,
    probes: usize,
    phase: Phase,
}

fn exited(code: i32) -> ProcessReport {
    ProcessReport::Exited { exit_code: Some(code), streams_intact: true }
}

fn not_started() -> ProcessReport {
    ProcessReport::SpawnError { cause: "permission denied".to_string() }
}

/// Plays the caller's part with canned observations in place of a file
/// system and processes.
fn drive(cache_exists: bool, build: ProcessReport, test: ProcessReport) -> Run {
    let mut orchestrator = Orchestrator::new(USER_PROJECT_DIR, TARGET_DIR);
    let mut build = Some(build);
    let mut test = Some(test);
    let mut run = Run { transcript: Vec::new(), commands: Vec::new(), probes: 0, phase: Phase::Init };
    let mut event = Event::Start;
    loop {
        let Step { lines, action } = orchestrator.step(event).unwrap();
        run.transcript.extend(lines);
        event = match action {
            Action::ProbeCache { cache_dir } => {
                assert_eq!(cache_dir, TARGET_DIR);
                run.probes += 1;
                Event::CacheProbed { exists: cache_exists }
            }
            Action::Run { stage, invocation } => {
                assert_eq!(invocation, stage.command(USER_PROJECT_DIR, TARGET_DIR));
                run.commands.push(stage);
                let report = match stage {
                    Stage::Build => build.take().unwrap(),
                    Stage::Test => test.take().unwrap(),
                };
                Event::StageEnded { report }
            }
            Action::Finish => break,
        };
    }
    run.phase = orchestrator.phase();
    run
}

fn joined(parts: Vec<Vec<Line>>) -> Vec<Line> {
    parts.into_iter().flatten().collect()
}

fn on_init() -> Vec<Line> {
    SubmissionResponse::new().on_init_messages().clone()
}

fn on_failure() -> Vec<Line> {
    SubmissionResponse::new().on_failure_messages().clone()
}

fn on_success() -> Vec<Line> {
    SubmissionResponse::new().on_success_messages().clone()
}

#[test]
fn hardcoded_directories() {
    assert_eq!(USER_PROJECT_DIR, "../dcs-rsm");
    assert_eq!(TARGET_DIR, "/tmp/dcs-rsm-target");
}

#[test]
fn new_run_is_in_init() {
    assert_eq!(Orchestrator::new("project", "cache").phase(), Phase::Init);
}

#[test]
fn start_prints_the_init_group_and_asks_for_the_cache() {
    let mut orchestrator = Orchestrator::new("project", "cache");
    let step = orchestrator.step(Event::Start).unwrap();
    assert_eq!(step.lines, on_init());
    assert_eq!(step.action, Action::ProbeCache { cache_dir: "cache".to_string() });
    assert_eq!(orchestrator.phase(), Phase::Building { invoked: false });
}

#[test]
fn existing_cache_skips_the_build_command() {
    let mut orchestrator = Orchestrator::new("project", "cache");
    orchestrator.step(Event::Start).unwrap();
    let step = orchestrator.step(Event::CacheProbed { exists: true }).unwrap();
    assert_eq!(step.lines, test_banner_lines());
    assert_eq!(
        step.action,
        Action::Run { stage: Stage::Test, invocation: Stage::Test.command("project", "cache") }
    );
    assert_eq!(orchestrator.phase(), Phase::Testing);

    let run = drive(true, exited(1), exited(0));
    assert_eq!(run.commands, vec![Stage::Test]);
    assert_eq!(run.probes, 1);
    assert_eq!(run.phase, Phase::Succeeded);
}

#[test]
fn missing_cache_runs_the_build_command_once() {
    let mut orchestrator = Orchestrator::new("project", "cache");
    orchestrator.step(Event::Start).unwrap();
    let step = orchestrator.step(Event::CacheProbed { exists: false }).unwrap();
    assert_eq!(step.lines, build_banner_lines());
    match step.action {
        Action::Run { stage, invocation } => {
            assert_eq!(stage, Stage::Build);
            assert_eq!(invocation.program, "cargo");
            assert_eq!(invocation.args, vec!["build", "--release", "--target-dir", "cache"]);
            assert_eq!(invocation.working_dir, "project");
        }
        other => panic!("expected the build command, got {other:?}"),
    }
    assert_eq!(orchestrator.phase(), Phase::Building { invoked: true });

    let run = drive(false, exited(0), exited(0));
    assert_eq!(run.commands, vec![Stage::Build, Stage::Test]);
    assert_eq!(run.probes, 1);
}

#[test]
fn end_to_end_success() {
    let run = drive(false, exited(0), exited(0));
    assert_eq!(run.phase, Phase::Succeeded);
    assert_eq!(
        run.transcript,
        joined(vec![
            on_init(),
            build_banner_lines(),
            build_succeeded_lines(),
            test_banner_lines(),
            on_success(),
        ])
    );
    let success = on_success();
    let init = on_init();
    assert_eq!(&run.transcript[..init.len()], &init[..]);
    assert_eq!(&run.transcript[run.transcript.len() - success.len()..], &success[..]);
}

#[test]
fn end_to_end_success_over_an_existing_cache() {
    let run = drive(true, exited(0), exited(0));
    assert_eq!(run.phase, Phase::Succeeded);
    assert_eq!(run.transcript, joined(vec![on_init(), test_banner_lines(), on_success()]));
}

#[test]
fn end_to_end_test_failure() {
    let run = drive(false, exited(0), exited(1));
    assert_eq!(run.phase, Phase::Failed);
    assert_eq!(run.commands, vec![Stage::Build, Stage::Test]);
    assert_eq!(
        run.transcript,
        joined(vec![
            on_init(),
            build_banner_lines(),
            build_succeeded_lines(),
            test_banner_lines(),
            on_failure(),
        ])
    );
    assert!(run.transcript.iter().all(|line| line.text != "All tests passed."));
    assert!(run.transcript.iter().all(|line| line.text != "Great job! 🎉"));
}

#[test]
fn test_command_that_does_not_start_ends_with_the_failure_group() {
    let run = drive(true, exited(0), not_started());
    assert_eq!(run.phase, Phase::Failed);
    assert_eq!(run.transcript, joined(vec![on_init(), test_banner_lines(), on_failure()]));
}

#[test]
fn test_command_with_unreadable_output_fails_the_run() {
    let report = ProcessReport::Exited { exit_code: Some(0), streams_intact: false };
    let run = drive(true, exited(0), report);
    assert_eq!(run.phase, Phase::Failed);
    assert_eq!(run.transcript, joined(vec![on_init(), test_banner_lines(), on_failure()]));
}

#[test]
fn failed_build_stops_the_run_with_its_own_notice() {
    let run = drive(false, exited(101), exited(0));
    assert_eq!(run.phase, Phase::Failed);
    assert_eq!(run.commands, vec![Stage::Build]);
    assert_eq!(run.transcript, joined(vec![on_init(), build_banner_lines(), build_failed_lines()]));
    assert!(run.transcript.iter().all(|line| line.text != "Test failed."));
}

#[test]
fn build_that_does_not_start_stops_the_run_with_its_cause() {
    let run = drive(false, not_started(), exited(0));
    assert_eq!(run.phase, Phase::Failed);
    assert_eq!(run.commands, vec![Stage::Build]);
    assert_eq!(
        run.transcript,
        joined(vec![on_init(), build_banner_lines(), build_not_started_lines("permission denied")])
    );
    assert!(run.transcript.iter().all(|line| line.text != "Test failed."));
}

#[test]
fn build_killed_by_a_signal_stops_the_run() {
    let report = ProcessReport::Exited { exit_code: None, streams_intact: true };
    let run = drive(false, report, exited(0));
    assert_eq!(run.phase, Phase::Failed);
    assert_eq!(run.commands, vec![Stage::Build]);
}

#[test]
fn build_step_answers_with_finish_on_failure() {
    let mut orchestrator = Orchestrator::new("project", "cache");
    orchestrator.step(Event::Start).unwrap();
    orchestrator.step(Event::CacheProbed { exists: false }).unwrap();
    let step = orchestrator.step(Event::StageEnded { report: exited(1) }).unwrap();
    assert_eq!(step, Step { lines: build_failed_lines(), action: Action::Finish });
    assert_eq!(orchestrator.phase(), Phase::Failed);
}

#[test]
fn events_out_of_turn_are_refused_and_change_nothing() {
    let mut orchestrator = Orchestrator::new("project", "cache");
    assert_eq!(
        orchestrator.step(Event::CacheProbed { exists: true }),
        Err(OutOfTurn { phase: Phase::Init })
    );
    assert_eq!(
        orchestrator.step(Event::StageEnded { report: exited(0) }),
        Err(OutOfTurn { phase: Phase::Init })
    );
    assert_eq!(orchestrator.phase(), Phase::Init);

    orchestrator.step(Event::Start).unwrap();
    let waiting = Phase::Building { invoked: false };
    assert_eq!(orchestrator.step(Event::Start), Err(OutOfTurn { phase: waiting }));
    assert_eq!(
        orchestrator.step(Event::StageEnded { report: exited(0) }),
        Err(OutOfTurn { phase: waiting })
    );
    assert_eq!(orchestrator.phase(), waiting);

    orchestrator.step(Event::CacheProbed { exists: false }).unwrap();
    let building = Phase::Building { invoked: true };
    assert_eq!(orchestrator.step(Event::Start), Err(OutOfTurn { phase: building }));
    assert_eq!(
        orchestrator.step(Event::CacheProbed { exists: true }),
        Err(OutOfTurn { phase: building })
    );
    assert_eq!(orchestrator.phase(), building);

    orchestrator.step(Event::StageEnded { report: exited(0) }).unwrap();
    assert_eq!(orchestrator.step(Event::Start), Err(OutOfTurn { phase: Phase::Testing }));
    assert_eq!(
        orchestrator.step(Event::CacheProbed { exists: false }),
        Err(OutOfTurn { phase: Phase::Testing })
    );
    assert_eq!(orchestrator.phase(), Phase::Testing);
}

#[test]
fn finished_run_accepts_nothing() {
    for (test, ended) in [(exited(0), Phase::Succeeded), (exited(3), Phase::Failed)] {
        let mut orchestrator = Orchestrator::new("project", "cache");
        orchestrator.step(Event::Start).unwrap();
        orchestrator.step(Event::CacheProbed { exists: true }).unwrap();
        orchestrator.step(Event::StageEnded { report: test }).unwrap();
        assert_eq!(orchestrator.phase(), ended);
        assert_eq!(orchestrator.step(Event::Start), Err(OutOfTurn { phase: ended }));
        assert_eq!(
            orchestrator.step(Event::CacheProbed { exists: false }),
            Err(OutOfTurn { phase: ended })
        );
        assert_eq!(
            orchestrator.step(Event::StageEnded { report: exited(0) }),
            Err(OutOfTurn { phase: ended })
        );
        assert_eq!(orchestrator.phase(), ended);
    }
}

#[test]
fn nothing_follows_a_failed_build() {
    for build in [exited(1), not_started()] {
        let mut orchestrator = Orchestrator::new("project", "cache");
        orchestrator.step(Event::Start).unwrap();
        orchestrator.step(Event::CacheProbed { exists: false }).unwrap();
        let step = orchestrator.step(Event::StageEnded { report: build }).unwrap();
        assert_eq!(step.action, Action::Finish);
        assert_ne!(step.lines, on_failure());
        assert_eq!(orchestrator.phase(), Phase::Failed);
        assert_eq!(
            orchestrator.step(Event::StageEnded { report: exited(0) }),
            Err(OutOfTurn { phase: Phase::Failed })
        );
        assert_eq!(
            orchestrator.step(Event::CacheProbed { exists: true }),
            Err(OutOfTurn { phase: Phase::Failed })
        );
        assert_eq!(orchestrator.phase(), Phase::Failed);
    }
}
