//! The fixed texts of a run: the response catalog, whose groups are chosen
//! by how the run ends, and the banners and notices of the build stage.

use crate::line::{Line, LineView, Tag};
use crate::style::Tone;
use vstd::prelude::*;
use vstd::string::StringExecFns;

verus! {

pub const WELCOME: &'static str =
    "Welcome back! The initial build may take some time but the future builds will be faster ⚡️";

pub const TEST_FAILED: &'static str = "Test failed.";

pub const DEBUGGING_GUIDE: &'static str =
    "Please view our article on debugging test failures: https://dotcodeschool.com/docs/debugging-test-failures";

pub const ALL_TESTS_PASSED: &'static str = "All tests passed.";

pub const GREAT_JOB: &'static str = "Great job! 🎉";

pub const NEXT_STEP: &'static str =
    "Move to the next step: https://dotcodeschool.com/courses/rust-state-machine";

pub const STARTING_BUILD: &'static str = "Starting build...";

pub const BUILD_PATIENCE: &'static str =
    "If you don't see logs for 60s+, please contact us at batman@dotcodeschool.com";

pub const BUILD_SUCCESSFUL: &'static str = "Build successful.";

pub const BUILD_FAILED: &'static str = "Build failed. Please check your code and try again.";

pub const BUILD_NOT_STARTED: &'static str = "Failed to build project:";

pub const OUR_SIDE: &'static str =
    "If you think this is an error on our side, please let us know at batman@dotcodeschool.com.";

pub const CAUSE_MARK: &'static str = ">\t";

pub const RUNNING_TESTS: &'static str = "Running tests. Logs should appear shortly...";

pub const LESSON: &'static str =
    "Running tests for Lesson 2 - Chapter 3 (Creating a Balances Pallet)";

pub const TEST_COMMAND: &'static str = "$ cargo run";

/// An untagged line of `text` in `tone`.
pub open spec fn message(text: Seq<char>, tone: Tone) -> LineView {
    LineView { tag: None, text, tone }
}

/// A line of `text` in `tone` under `tag`.
pub open spec fn notice(tag: Tag, text: Seq<char>, tone: Tone) -> LineView {
    LineView { tag: Some(tag), text, tone }
}

/// An empty line.
pub open spec fn blank() -> LineView {
    message(Seq::empty(), Tone::Plain)
}

/// The three message groups of a run, as sequences of lines.
pub struct SubmissionResponseView {
    pub on_init: Seq<LineView>,
    pub on_failure: Seq<LineView>,
    pub on_success: Seq<LineView>,
}

/// The catalog that every run reports from.
pub open spec fn catalog() -> SubmissionResponseView {
    SubmissionResponseView {
        on_init: seq![blank(), message(WELCOME@, Tone::Green), blank()],
        on_failure: seq![
            blank(),
            message(TEST_FAILED@, Tone::Red),
            blank(),
            message(DEBUGGING_GUIDE@, Tone::Plain),
        ],
        on_success: seq![
            message(ALL_TESTS_PASSED@, Tone::Green),
            blank(),
            message(GREAT_JOB@, Tone::Plain),
            blank(),
            message(NEXT_STEP@, Tone::Plain),
        ],
    }
}

/// Printed before the build command is started.
pub open spec fn build_banner() -> Seq<LineView> {
    seq![
        notice(Tag::Build, STARTING_BUILD@, Tone::Blue),
        notice(Tag::Build, BUILD_PATIENCE@, Tone::Blue),
    ]
}

/// Printed after the build command has succeeded.
pub open spec fn build_succeeded_notice() -> Seq<LineView> {
    seq![notice(Tag::Build, BUILD_SUCCESSFUL@, Tone::Green)]
}

/// Printed where the build command ran and failed.
pub open spec fn build_failed_notice() -> Seq<LineView> {
    seq![notice(Tag::Build, BUILD_FAILED@, Tone::Red), notice(Tag::Build, OUR_SIDE@, Tone::Red)]
}

/// Printed where the build command could not be started for `cause`.
pub open spec fn build_not_started_notice(cause: Seq<char>) -> Seq<LineView> {
    seq![
        blank(),
        message(BUILD_NOT_STARTED@, Tone::Red),
        message(CAUSE_MARK@ + cause, Tone::Plain),
        blank(),
        message(OUR_SIDE@, Tone::Red),
    ]
}

/// Printed before the test command is started.
pub open spec fn test_banner() -> Seq<LineView> {
    seq![
        blank(),
        message(RUNNING_TESTS@, Tone::Plain),
        blank(),
        notice(Tag::Tester, LESSON@, Tone::Blue),
        notice(Tag::Tester, TEST_COMMAND@, Tone::Blue),
    ]
}

/// Appends a line with the given parts to `lines`.
fn push_line(lines: &mut Vec<Line>, tag: Option<Tag>, text: &str, tone: Tone)
    ensures
        final(lines).deep_view() == old(lines).deep_view().push(LineView { tag, text: text@, tone }),
{
    lines.push(Line::new(tag, text, tone));
    assert(lines.deep_view() =~= old(lines).deep_view().push(LineView { tag, text: text@, tone }));
}

/// A copy of `lines`.
pub fn copy_lines(lines: &Vec<Line>) -> (copy: Vec<Line>)
    ensures
        copy.deep_view() == lines.deep_view(),
{
    let mut copy: Vec<Line> = Vec::new();
    let mut i: usize = 0;
    while i < lines.len()
        invariant
            i <= lines.len(),
            copy.deep_view() == lines.deep_view().take(i as int),
        decreases lines.len() - i,
    {
        let ghost before = copy.deep_view();
        let line = lines[i].clone();
        copy.push(line);
        assert(copy.deep_view() =~= before.push(lines.deep_view()[i as int]));
        i += 1;
        assert(copy.deep_view() =~= lines.deep_view().take(i as int));
    }
    assert(lines.deep_view().take(i as int) =~= lines.deep_view());
    copy
}

/// The lines of [`build_banner`].
pub fn build_banner_lines() -> (lines: Vec<Line>)
    ensures
        lines.deep_view() == build_banner(),
{
    let mut lines: Vec<Line> = Vec::new();
    push_line(&mut lines, Some(Tag::Build), STARTING_BUILD, Tone::Blue);
    push_line(&mut lines, Some(Tag::Build), BUILD_PATIENCE, Tone::Blue);
    assert(lines.deep_view() =~= build_banner());
    lines
}

/// The lines of [`build_succeeded_notice`].
pub fn build_succeeded_lines() -> (lines: Vec<Line>)
    ensures
        lines.deep_view() == build_succeeded_notice(),
{
    let mut lines: Vec<Line> = Vec::new();
    push_line(&mut lines, Some(Tag::Build), BUILD_SUCCESSFUL, Tone::Green);
    assert(lines.deep_view() =~= build_succeeded_notice());
    lines
}

/// The lines of [`build_failed_notice`].
pub fn build_failed_lines() -> (lines: Vec<Line>)
    ensures
        lines.deep_view() == build_failed_notice(),
{
    let mut lines: Vec<Line> = Vec::new();
    push_line(&mut lines, Some(Tag::Build), BUILD_FAILED, Tone::Red);
    push_line(&mut lines, Some(Tag::Build), OUR_SIDE, Tone::Red);
    assert(lines.deep_view() =~= build_failed_notice());
    lines
}

/// The lines of [`build_not_started_notice`] for `cause`.
pub fn build_not_started_lines(cause: &str) -> (lines: Vec<Line>)
    ensures
        lines.deep_view() == build_not_started_notice(cause@),
{
    let mut marked = String::from_str(CAUSE_MARK);
    marked.append(cause);
    let mut lines: Vec<Line> = Vec::new();
    push_line(&mut lines, None, "", Tone::Plain);
    push_line(&mut lines, None, BUILD_NOT_STARTED, Tone::Red);
    push_line(&mut lines, None, marked.as_str(), Tone::Plain);
    push_line(&mut lines, None, "", Tone::Plain);
    push_line(&mut lines, None, OUR_SIDE, Tone::Red);
    proof {
        reveal_strlit("");
        assert(""@ =~= Seq::<char>::empty());
    }
    assert(lines.deep_view() =~= build_not_started_notice(cause@));
    lines
}

/// The lines of [`test_banner`].
pub fn test_banner_lines() -> (lines: Vec<Line>)
    ensures
        lines.deep_view() == test_banner(),
{
    let mut lines: Vec<Line> = Vec::new();
    push_line(&mut lines, None, "", Tone::Plain);
    push_line(&mut lines, None, RUNNING_TESTS, Tone::Plain);
    push_line(&mut lines, None, "", Tone::Plain);
    push_line(&mut lines, Some(Tag::Tester), LESSON, Tone::Blue);
    push_line(&mut lines, Some(Tag::Tester), TEST_COMMAND, Tone::Blue);
    proof {
        reveal_strlit("");
        assert(""@ =~= Seq::<char>::empty());
    }
    assert(lines.deep_view() =~= test_banner());
    lines
}

/// The response catalog: three ordered groups of display lines, one of
/// which closes every run. It is made once and never changes.
#[derive(Debug)]
pub struct SubmissionResponse {
    on_init_messages: Vec<Line>,
    on_failure_messages: Vec<Line>,
    on_success_messages: Vec<Line>,
}

impl View for SubmissionResponse {
    type V = SubmissionResponseView;

    closed spec fn view(&self) -> SubmissionResponseView {
        SubmissionResponseView {
            on_init: self.on_init_messages.deep_view(),
            on_failure: self.on_failure_messages.deep_view(),
            on_success: self.on_success_messages.deep_view(),
        }
    }
}

impl SubmissionResponse {
    /// The catalog of this grader.
    pub fn new() -> (response: SubmissionResponse)
        ensures
            response@ == catalog(),
    {
        let mut on_init_messages: Vec<Line> = Vec::new();
        push_line(&mut on_init_messages, None, "", Tone::Plain);
        push_line(&mut on_init_messages, None, WELCOME, Tone::Green);
        push_line(&mut on_init_messages, None, "", Tone::Plain);

        let mut on_failure_messages: Vec<Line> = Vec::new();
        push_line(&mut on_failure_messages, None, "", Tone::Plain);
        push_line(&mut on_failure_messages, None, TEST_FAILED, Tone::Red);
        push_line(&mut on_failure_messages, None, "", Tone::Plain);
        push_line(&mut on_failure_messages, None, DEBUGGING_GUIDE, Tone::Plain);

        let mut on_success_messages: Vec<Line> = Vec::new();
        push_line(&mut on_success_messages, None, ALL_TESTS_PASSED, Tone::Green);
        push_line(&mut on_success_messages, None, "", Tone::Plain);
        push_line(&mut on_success_messages, None, GREAT_JOB, Tone::Plain);
        push_line(&mut on_success_messages, None, "", Tone::Plain);
        push_line(&mut on_success_messages, None, NEXT_STEP, Tone::Plain);

        proof {
            reveal_strlit("");
            assert(""@ =~= Seq::<char>::empty());
            assert(on_init_messages.deep_view() =~= catalog().on_init);
            assert(on_failure_messages.deep_view() =~= catalog().on_failure);
            assert(on_success_messages.deep_view() =~= catalog().on_success);
        }
        SubmissionResponse { on_init_messages, on_failure_messages, on_success_messages }
    }

    /// The lines that open every run.
    pub fn on_init_messages(&self) -> (lines: &Vec<Line>)
        ensures
            lines.deep_view() == self@.on_init,
    {
        &self.on_init_messages
    }

    /// The lines that close a run whose tests did not pass.
    pub fn on_failure_messages(&self) -> (lines: &Vec<Line>)
        ensures
            lines.deep_view() == self@.on_failure,
    {
        &self.on_failure_messages
    }

    /// The lines that close a run whose tests passed.
    pub fn on_success_messages(&self) -> (lines: &Vec<Line>)
        ensures
            lines.deep_view() == self@.on_success,
    {
        &self.on_success_messages
    }
}

} // verus!
