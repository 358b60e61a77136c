//! Lines of console output: an optional stage tag, and text in a tone.

use crate::style::{framed, is_painted, paint, reset_at, sgr_reset, Tone};
use vstd::prelude::*;
use vstd::string::StringExecFns;

verus! {

pub const BUILD_TAG: &'static str = "[build]";

pub const TESTER_TAG: &'static str = "[tester::rsm_l2c3]";

pub const PROGRAM_TAG: &'static str = "[your_program]";

/// The label in front of a line, which names where the line comes from.
#[derive(Clone, Copy, Debug, PartialEq, Eq, Structural)]
pub enum Tag {
    /// Output and banners of the build stage.
    Build,
    /// Banners of the grading harness, printed before the test command runs.
    Tester,
    /// Output of the learner's program under test.
    Program,
}

impl Tag {
    /// The characters of the label.
    pub open spec fn text(self) -> Seq<char> {
        match self {
            Tag::Build => BUILD_TAG@,
            Tag::Tester => TESTER_TAG@,
            Tag::Program => PROGRAM_TAG@,
        }
    }

    /// The label as a string.
    pub fn label(self) -> (label: &'static str)
        ensures
            label@ == self.text(),
    {
        match self {
            Tag::Build => BUILD_TAG,
            Tag::Tester => TESTER_TAG,
            Tag::Program => PROGRAM_TAG,
        }
    }
}

/// One line of console output.
#[derive(Debug, PartialEq, Eq)]
pub struct Line {
    /// The label in front of the text, if the line has one.
    pub tag: Option<Tag>,
    /// The text, without any escape sequence of the tone.
    pub text: String,
    /// The colour in which the text is shown.
    pub tone: Tone,
}

/// What a [`Line`] says, with its text as a sequence of characters.
pub struct LineView {
    pub tag: Option<Tag>,
    pub text: Seq<char>,
    pub tone: Tone,
}

impl View for Line {
    type V = LineView;

    open spec fn view(&self) -> LineView {
        LineView { tag: self.tag, text: self.text@, tone: self.tone }
    }
}

impl DeepView for Line {
    type V = LineView;

    open spec fn deep_view(&self) -> LineView {
        self@
    }
}

impl Clone for Line {
    fn clone(&self) -> (copy: Self)
        ensures
            copy@ == self@,
    {
        Line { tag: self.tag, text: self.text.clone(), tone: self.tone }
    }
}

/// `label`, a space, and `body`: the layout of every tagged line.
pub open spec fn prefixed(label: Seq<char>, body: Seq<char>) -> Seq<char> {
    label + seq![' '] + body
}

/// Whether `out` is a way in which `line` may appear on the console: the
/// text painted in the line's tone and, for a tagged line, the label
/// painted yellow and a space in front of it.
pub open spec fn is_rendering(out: Seq<char>, line: LineView) -> bool {
    match line.tag {
        None => is_painted(out, line.text, line.tone),
        Some(tag) => exists|label: Seq<char>, body: Seq<char>|
            {
                &&& is_painted(label, tag.text(), Tone::Yellow)
                &&& is_painted(body, line.text, line.tone)
                &&& out == #[trigger] prefixed(label, body)
            },
    }
}

/// Joins a painted label and a painted body into one tagged line.
pub fn join_tagged(label: &str, body: &str) -> (out: String)
    ensures
        out@ == prefixed(label@, body@),
{
    let mut out = String::from_str(label);
    proof {
        reveal_strlit(" ");
    }
    out.append(" ");
    out.append(body);
    assert(out@ =~= prefixed(label@, body@));
    out
}

impl Line {
    /// A line with the given parts; the text is copied.
    pub fn new(tag: Option<Tag>, text: &str, tone: Tone) -> (line: Line)
        ensures
            line@ == (LineView { tag, text: text@, tone }),
    {
        Line { tag, text: String::from_str(text), tone }
    }

    /// The characters to write to the console for this line.
    pub fn render(&self) -> (out: String)
        ensures
            is_rendering(out@, self@),
    {
        let body = paint(self.text.as_str(), self.tone);
        match self.tag {
            None => body,
            Some(tag) => {
                let label = paint(tag.label(), Tone::Yellow);
                let out = join_tagged(label.as_str(), body.as_str());
                assert(out@ == prefixed(label@, body@));
                out
            },
        }
    }
}

/// No label holds a reset sequence, so a painted label is the label
/// itself or the label framed in yellow.
pub proof fn lemma_label_forms(tag: Tag, label: Seq<char>)
    requires
        is_painted(label, tag.text(), Tone::Yellow),
    ensures
        label == tag.text() || label == framed(tag.text(), Tone::Yellow),
{
    reveal_strlit("[build]");
    reveal_strlit("[tester::rsm_l2c3]");
    reveal_strlit("[your_program]");
    let text = tag.text();
    assert forall|at: int| !reset_at(text, at) by {
        if reset_at(text, at) {
            assert(text.subrange(at, at + 4)[0] == sgr_reset()[0]);
            assert(text[at] == '\x1b');
        }
    }
}

/// Every rendering of a tagged line starts with its label, plain or framed
/// in yellow, and a space.
pub proof fn law_rendering_starts_with_label(out: Seq<char>, line: LineView)
    requires
        line.tag is Some,
        is_rendering(out, line),
    ensures
        ({
            let label = line.tag->0.text();
            ||| (label + seq![' ']).is_prefix_of(out)
            ||| (framed(label, Tone::Yellow) + seq![' ']).is_prefix_of(out)
        }),
{
    let tag = line.tag->0;
    let (label, body) = choose|label: Seq<char>, body: Seq<char>|
        {
            &&& is_painted(label, tag.text(), Tone::Yellow)
            &&& is_painted(body, line.text, line.tone)
            &&& out == #[trigger] prefixed(label, body)
        };
    lemma_label_forms(tag, label);
    assert((label + seq![' ']).is_prefix_of(out));
}

} // verus!
