use grading_runner::line::Tag;
use grading_runner::stage::{classify, Invocation, ProcessReport, Stage, StageOutcome, BUILD_TOOL};

fn exited(code: i32) -> ProcessReport {
    ProcessReport::Exited { exit_code: Some(code), streams_intact: true }
}

fn strings(items: &[&str]) -> Vec<String> {
    items.iter().map(|item| item.to_string()).collect()
}

#[test]
fn exit_code_zero_is_success() {
    assert_eq!(classify(exited(0)), StageOutcome::Succeeded);
}

#[test]
fn nonzero_exit_code_is_kept() {
    assert_eq!(classify(exited(1)), StageOutcome::Failed { exit_code: Some(1) });
    assert_eq!(classify(exited(101)), StageOutcome::Failed { exit_code: Some(101) });
    assert_eq!(classify(exited(-1)), StageOutcome::Failed { exit_code: Some(-1) });
    assert_eq!(classify(exited(i32::MAX)), StageOutcome::Failed { exit_code: Some(i32::MAX) });
    assert_eq!(classify(exited(i32::MIN)), StageOutcome::Failed { exit_code: Some(i32::MIN) });
}

#[test]
fn process_without_exit_code_has_failed() {
    let report = ProcessReport::Exited { exit_code: None, streams_intact: true };
    assert_eq!(classify(report), StageOutcome::Failed { exit_code: None });
}

#[test]
fn unreadable_output_fails_the_stage_even_on_exit_zero() {
    let report = ProcessReport::Exited { exit_code: Some(0), streams_intact: false };
    assert_eq!(classify(report), StageOutcome::Failed { exit_code: Some(0) });
    let report = ProcessReport::Exited { exit_code: Some(2), streams_intact: false };
    assert_eq!(classify(report), StageOutcome::Failed { exit_code: Some(2) });
}

#[test]
fn spawn_error_keeps_its_cause() {
    let report = ProcessReport::SpawnError { cause: "No such file or directory (os error 2)".to_string() };
    assert_eq!(
        classify(report),
        StageOutcome::SpawnFailed { cause: "No such file or directory (os error 2)".to_string() }
    );
    let report = ProcessReport::SpawnError { cause: String::new() };
    assert_eq!(classify(report), StageOutcome::SpawnFailed { cause: String::new() });
}

#[test]
fn existing_cache_settles_the_build_stage() {
    assert_eq!(Stage::Build.settle_from_cache(true), Some(StageOutcome::Succeeded));
}

#[test]
fn missing_cache_leaves_the_build_to_run() {
    assert_eq!(Stage::Build.settle_from_cache(false), None);
}

#[test]
fn test_stage_is_never_settled_by_the_cache() {
    assert_eq!(Stage::Test.settle_from_cache(true), None);
    assert_eq!(Stage::Test.settle_from_cache(false), None);
}

#[test]
fn build_command_is_a_release_build_into_the_cache() {
    let invocation = Stage::Build.command("../dcs-rsm", "/tmp/dcs-rsm-target");
    assert_eq!(
        invocation,
        Invocation {
            program: "cargo".to_string(),
            args: strings(&["build", "--release", "--target-dir", "/tmp/dcs-rsm-target"]),
            working_dir: "../dcs-rsm".to_string(),
        }
    );
}

#[test]
fn test_command_is_a_quiet_release_run_through_the_cache() {
    let invocation = Stage::Test.command("../dcs-rsm", "/tmp/dcs-rsm-target");
    assert_eq!(
        invocation,
        Invocation {
            program: "cargo".to_string(),
            args: strings(&["run", "--quiet", "--release", "--target-dir", "/tmp/dcs-rsm-target"]),
            working_dir: "../dcs-rsm".to_string(),
        }
    );
}

#[test]
fn commands_take_the_directories_they_are_given() {
    let invocation = Stage::Build.command("", "cache dir/with space");
    assert_eq!(invocation.program, BUILD_TOOL);
    assert_eq!(invocation.args.len(), 4);
    assert_eq!(invocation.args[3], "cache dir/with space");
    assert_eq!(invocation.working_dir, "");
    let invocation = Stage::Test.command("project", "");
    assert_eq!(invocation.args.len(), 5);
    assert_eq!(invocation.args[4], "");
    assert_eq!(invocation.working_dir, "project");
}

#[test]
fn stages_log_under_their_own_tags() {
    assert_eq!(Stage::Build.log_tag(), Tag::Build);
    assert_eq!(Stage::Test.log_tag(), Tag::Program);
    assert_eq!(Tag::Build.label(), "[build]");
    assert_eq!(Tag::Program.label(), "[your_program]");
    assert_eq!(Tag::Tester.label(), "[tester::rsm_l2c3]");
}
