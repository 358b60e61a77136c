//! Turns what arrives on the two output streams of a stage's command into
//! tagged lines for the console.
//!
//! The caller reads both streams, each with a reader of its own so that
//! neither stream waits for the other, and hands every line, fault and end
//! of stream to the streamer in the order of arrival.

use crate::line::{is_rendering, lemma_label_forms, prefixed, Line, LineView, Tag};
use crate::stage::{ProcessReport, ProcessReportView};
use crate::style::{framed, is_painted, Tone};
use vstd::prelude::*;

verus! {

/// One of the two output streams of a command.
#[derive(Clone, Copy, Debug, PartialEq, Eq, Structural)]
pub enum Source {
    Stdout,
    Stderr,
}

/// What a reader saw on its stream.
#[derive(Debug, PartialEq, Eq)]
pub enum StreamEvent {
    /// A complete line, without its line ending.
    Line { source: Source, text: String },
    /// A line that could not be read as text.
    Fault { source: Source },
    /// The stream is exhausted: its pipe was closed.
    Closed { source: Source },
}

/// A [`StreamEvent`] with its text as a sequence of characters.
pub enum StreamEventView {
    Line { source: Source, text: Seq<char> },
    Fault { source: Source },
    Closed { source: Source },
}

impl View for StreamEvent {
    type V = StreamEventView;

    open spec fn view(&self) -> StreamEventView {
        match self {
            StreamEvent::Line { source, text } => StreamEventView::Line {
                source: *source,
                text: text@,
            },
            StreamEvent::Fault { source } => StreamEventView::Fault { source: *source },
            StreamEvent::Closed { source } => StreamEventView::Closed { source: *source },
        }
    }
}

/// The console line for `text` read from a command logged under `tag`.
pub open spec fn log_line(tag: Tag, text: Seq<char>) -> LineView {
    LineView { tag: Some(tag), text, tone: Tone::Plain }
}

/// The state of streaming for one stage.
#[derive(Clone, Copy, Debug, PartialEq, Eq, Structural)]
pub struct LogStreamer {
    /// The tag in front of every line of the stage.
    pub tag: Tag,
    /// Standard output is not exhausted yet.
    pub stdout_open: bool,
    /// Standard error is not exhausted yet.
    pub stderr_open: bool,
    /// No line has been lost to a fault.
    pub intact: bool,
}

impl LogStreamer {
    /// The state before anything has arrived.
    pub open spec fn initial(tag: Tag) -> LogStreamer {
        LogStreamer { tag, stdout_open: true, stderr_open: true, intact: true }
    }

    /// Streaming for the stage has ended: both streams are exhausted.
    pub open spec fn done(self) -> bool {
        !self.stdout_open && !self.stderr_open
    }

    /// The state after `event`: the end of a stream is recorded, a fault is
    /// remembered, a line changes nothing.
    pub open spec fn after(self, event: StreamEventView) -> LogStreamer {
        match event {
            StreamEventView::Line { .. } => self,
            StreamEventView::Fault { .. } => LogStreamer { intact: false, ..self },
            StreamEventView::Closed { source: Source::Stdout } => LogStreamer {
                stdout_open: false,
                ..self
            },
            StreamEventView::Closed { source: Source::Stderr } => LogStreamer {
                stderr_open: false,
                ..self
            },
        }
    }

    /// The line to print for `event`: every line read is printed under the
    /// stage's tag, whichever stream it came from; nothing else is printed.
    pub open spec fn line_for(self, event: StreamEventView) -> Option<LineView> {
        match event {
            StreamEventView::Line { text, .. } => Some(log_line(self.tag, text)),
            _ => None,
        }
    }

    /// The state after all of `events`, in order.
    pub open spec fn after_all(self, events: Seq<StreamEventView>) -> LogStreamer
        decreases events.len(),
    {
        if events.len() == 0 {
            self
        } else {
            self.after_all(events.drop_last()).after(events.last())
        }
    }

    /// A streamer for a command whose output is logged under `tag`.
    pub fn new(tag: Tag) -> (streamer: LogStreamer)
        ensures
            streamer == LogStreamer::initial(tag),
    {
        LogStreamer { tag, stdout_open: true, stderr_open: true, intact: true }
    }

    /// Whether streaming for the stage has ended.
    pub fn is_done(&self) -> (done: bool)
        ensures
            done == self.done(),
    {
        !self.stdout_open && !self.stderr_open
    }

    /// Whether every line so far could be read.
    pub fn is_intact(&self) -> (intact: bool)
        ensures
            intact == self.intact,
    {
        self.intact
    }

    /// The report of the command once it has been waited for and has ended
    /// with `exit_code`. Its output counts as read in full where both
    /// streams were read to their end and no fault was seen.
    pub fn report(&self, exit_code: Option<i32>) -> (report: ProcessReport)
        ensures
            report@ == (ProcessReportView::Exited {
                exit_code,
                streams_intact: self.done() && self.intact,
            }),
    {
        ProcessReport::Exited {
            exit_code,
            streams_intact: !self.stdout_open && !self.stderr_open && self.intact,
        }
    }

    /// Takes one event in, and hands back the line to print for it, if any.
    pub fn observe(&mut self, event: StreamEvent) -> (line: Option<Line>)
        ensures
            *final(self) == old(self).after(event@),
            line.deep_view() == old(self).line_for(event@),
    {
        match event {
            StreamEvent::Line { source: _, text } => Some(
                Line { tag: Some(self.tag), text, tone: Tone::Plain },
            ),
            StreamEvent::Fault { source: _ } => {
                self.intact = false;
                None
            },
            StreamEvent::Closed { source } => {
                match source {
                    Source::Stdout => {
                        self.stdout_open = false;
                    },
                    Source::Stderr => {
                        self.stderr_open = false;
                    },
                }
                None
            },
        }
    }
}

/// The lines printed while `events` were handed to `streamer`, one call
/// of [`LogStreamer::observe`] each, in the order of printing.
pub open spec fn printed(streamer: LogStreamer, events: Seq<StreamEventView>) -> Seq<LineView>
    decreases events.len(),
{
    if events.len() == 0 {
        Seq::empty()
    } else {
        let earlier = events.drop_last();
        match streamer.after_all(earlier).line_for(events.last()) {
            Some(line) => printed(streamer, earlier).push(line),
            None => printed(streamer, earlier),
        }
    }
}

/// For each printed line, the stream it was read from.
pub open spec fn origins(events: Seq<StreamEventView>) -> Seq<Source>
    decreases events.len(),
{
    if events.len() == 0 {
        Seq::empty()
    } else {
        let before = origins(events.drop_last());
        match events.last() {
            StreamEventView::Line { source, .. } => before.push(source),
            _ => before,
        }
    }
}

/// The lines that the command wrote to `source`, in the order of writing.
pub open spec fn written_to(source: Source, events: Seq<StreamEventView>) -> Seq<Seq<char>>
    decreases events.len(),
{
    if events.len() == 0 {
        Seq::empty()
    } else {
        let before = written_to(source, events.drop_last());
        match events.last() {
            StreamEventView::Line { source: from, text } if from == source => before.push(text),
            _ => before,
        }
    }
}

/// The members of `lines` that were read from `source`, in their order,
/// where `from[i]` is the stream that `lines[i]` was read from.
pub open spec fn read_from(source: Source, lines: Seq<LineView>, from: Seq<Source>) -> Seq<
    LineView,
>
    recommends
        lines.len() == from.len(),
    decreases lines.len(),
{
    if lines.len() == 0 || from.len() == 0 {
        Seq::empty()
    } else {
        let before = read_from(source, lines.drop_last(), from.drop_last());
        if from.last() == source {
            before.push(lines.last())
        } else {
            before
        }
    }
}

/// The tag of a streamer never changes.
proof fn lemma_tag_is_kept(streamer: LogStreamer, events: Seq<StreamEventView>)
    ensures
        streamer.after_all(events).tag == streamer.tag,
    decreases events.len(),
{
    if events.len() > 0 {
        lemma_tag_is_kept(streamer, events.drop_last());
    }
}

/// Stream fidelity: what is printed is an interleaving of the two streams.
/// Every line written to either stream is printed once, under the stage's
/// tag and with its text unchanged, and the lines of one stream keep their
/// order.
pub proof fn law_stream_fidelity(streamer: LogStreamer, events: Seq<StreamEventView>)
    ensures
        printed(streamer, events).len() == written_to(Source::Stdout, events).len() + written_to(
            Source::Stderr,
            events,
        ).len(),
        origins(events).len() == printed(streamer, events).len(),
        forall|source: Source| #[trigger]
            read_from(source, printed(streamer, events), origins(events)) == written_to(
                source,
                events,
            ).map_values(|text: Seq<char>| log_line(streamer.tag, text)),
    decreases events.len(),
{
    let tagged = |text: Seq<char>| log_line(streamer.tag, text);
    if events.len() > 0 {
        law_stream_fidelity(streamer, events.drop_last());
        lemma_tag_is_kept(streamer, events.drop_last());
    }
    assert forall|source: Source| #[trigger]
        read_from(source, printed(streamer, events), origins(events)) == written_to(
            source,
            events,
        ).map_values(tagged) by {
        if events.len() > 0 {
            let earlier = events.drop_last();
            assert(read_from(source, printed(streamer, earlier), origins(earlier)) == written_to(
                source,
                earlier,
            ).map_values(tagged));
            if let StreamEventView::Line { source: from, text } = events.last() {
                assert(printed(streamer, events).drop_last() == printed(streamer, earlier));
                assert(origins(events).drop_last() == origins(earlier));
                if from == source {
                    assert(written_to(source, events).map_values(tagged) == written_to(
                        source,
                        earlier,
                    ).map_values(tagged).push(log_line(streamer.tag, text)));
                }
            }
        } else {
            assert(written_to(source, events).map_values(tagged) == Seq::<LineView>::empty());
        }
    }
}

/// The console format of a streamed line: the stage's label, plain or
/// framed in yellow, then one space, then the line as it was read.
pub proof fn law_streamed_line_format(out: Seq<char>, tag: Tag, text: Seq<char>)
    requires
        is_rendering(out, log_line(tag, text)),
    ensures
        out == prefixed(tag.text(), text) || out == prefixed(framed(tag.text(), Tone::Yellow), text),
{
    let (label, body) = choose|label: Seq<char>, body: Seq<char>|
        {
            &&& is_painted(label, tag.text(), Tone::Yellow)
            &&& is_painted(body, text, Tone::Plain)
            &&& out == #[trigger] prefixed(label, body)
        };
    lemma_label_forms(tag, label);
}

/// Whether a fault is among `events`.
pub open spec fn has_fault(events: Seq<StreamEventView>) -> bool {
    exists|i: int| 0 <= i < events.len() && (#[trigger] events[i]) is Fault
}

/// An event is among `events` where it is the last of them or among the
/// earlier ones.
proof fn lemma_last_or_earlier(events: Seq<StreamEventView>, event: StreamEventView)
    requires
        events.len() > 0,
    ensures
        events.contains(event) <==> events.drop_last().contains(event) || events.last() == event,
{
    let earlier = events.drop_last();
    if earlier.contains(event) {
        let i = choose|i: int| 0 <= i < earlier.len() && earlier[i] == event;
        assert(events[i] == event);
    }
    if events.contains(event) {
        let i = choose|i: int| 0 <= i < events.len() && events[i] == event;
        if i < earlier.len() {
            assert(earlier[i] == event);
        }
    }
}

/// Streaming for a stage ends when both its streams are exhausted, and not
/// before: a stream counts as open until its end has been handed in.
pub proof fn law_streaming_ends_with_both_streams(tag: Tag, events: Seq<StreamEventView>)
    ensures
        !LogStreamer::initial(tag).after_all(events).stdout_open <==> events.contains(
            StreamEventView::Closed { source: Source::Stdout },
        ),
        !LogStreamer::initial(tag).after_all(events).stderr_open <==> events.contains(
            StreamEventView::Closed { source: Source::Stderr },
        ),
        LogStreamer::initial(tag).after_all(events).done() <==> {
            &&& events.contains(StreamEventView::Closed { source: Source::Stdout })
            &&& events.contains(StreamEventView::Closed { source: Source::Stderr })
        },
    decreases events.len(),
{
    if events.len() > 0 {
        law_streaming_ends_with_both_streams(tag, events.drop_last());
        lemma_last_or_earlier(events, StreamEventView::Closed { source: Source::Stdout });
        lemma_last_or_earlier(events, StreamEventView::Closed { source: Source::Stderr });
    }
}

/// The output of a stage counts as intact exactly as long as no fault has
/// been handed in.
pub proof fn law_intact_until_fault(tag: Tag, events: Seq<StreamEventView>)
    ensures
        LogStreamer::initial(tag).after_all(events).intact <==> !has_fault(events),
    decreases events.len(),
{
    if events.len() > 0 {
        let earlier = events.drop_last();
        law_intact_until_fault(tag, earlier);
        if has_fault(earlier) {
            let i = choose|i: int| 0 <= i < earlier.len() && (#[trigger] earlier[i]) is Fault;
            assert(events[i] is Fault);
        }
        if has_fault(events) && !(events.last() is Fault) {
            let i = choose|i: int| 0 <= i < events.len() && (#[trigger] events[i]) is Fault;
            assert(earlier[i] is Fault);
        }
        if events.last() is Fault {
            assert(events[events.len() - 1] is Fault);
        }
    }
}

} // verus!
