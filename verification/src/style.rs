//! Terminal colouring of display text.
//!
//! The colouring itself is done by the `colored` crate, which decides from
//! the process it runs in (environment, terminal, a manual override) whether
//! escape sequences are written at all. The contracts here therefore admit
//! both forms of every coloured text.

use colored::Colorize;
use vstd::prelude::*;
use vstd::string::StringExecFns;

verus! {

/// Foreground colour of a piece of display text.
#[derive(Clone, Copy, Debug, PartialEq, Eq, Structural)]
pub enum Tone {
    /// The terminal's own colour: the text is written as it is.
    Plain,
    Red,
    Green,
    Yellow,
    Blue,
}

/// The escape sequence that ends a coloured text.
pub open spec fn sgr_reset() -> Seq<char> {
    seq!['\x1b', '[', '0', 'm']
}

/// The escape sequence that switches the foreground to the colour with
/// parameter `code`.
pub open spec fn sgr_open(code: Seq<char>) -> Seq<char> {
    seq!['\x1b', '['] + code + seq!['m']
}

/// The parameter that selects `tone` as foreground colour; empty for
/// [`Tone::Plain`], which selects nothing.
pub open spec fn tone_code(tone: Tone) -> Seq<char> {
    match tone {
        Tone::Plain => Seq::empty(),
        Tone::Red => seq!['3', '1'],
        Tone::Green => seq!['3', '2'],
        Tone::Yellow => seq!['3', '3'],
        Tone::Blue => seq!['3', '4'],
    }
}

/// `text` between the sequence that opens `tone` and the reset sequence.
pub open spec fn framed(text: Seq<char>, tone: Tone) -> Seq<char> {
    sgr_open(tone_code(tone)) + text + sgr_reset()
}

/// Whether the reset sequence stands in `text` at position `at`.
pub open spec fn reset_at(text: Seq<char>, at: int) -> bool {
    0 <= at && at + 4 <= text.len() && text.subrange(at, at + 4) == sgr_reset()
}

/// Whether `text` holds a reset sequence of its own.
pub open spec fn has_reset(text: Seq<char>) -> bool {
    exists|at: int| reset_at(text, at)
}

/// Whether `out` is a way in which `text` may come out in `tone`.
///
/// Plain text comes out as it is. Coloured text comes out as it is where
/// colouring is off, and framed by escape sequences where it is on. A text
/// that holds a reset sequence of its own is rewritten inside the frame;
/// what it is rewritten to is not said here.
pub open spec fn is_painted(out: Seq<char>, text: Seq<char>, tone: Tone) -> bool {
    if tone is Plain {
        out == text
    } else {
        ||| out == text
        ||| exists|inner: Seq<char>|
            out == #[trigger] framed(inner, tone) && (inner == text || has_reset(text))
    }
}

/// Calls `colored::Colorize::red` on `text` and writes the result out with
/// `to_string`, that is through the `Display` impl of
/// `colored::ColoredString`.
///
/// Not proved: where colouring is off the result is `text`; where it is on
/// the result is `ESC[31m`, then `text`, then `ESC[0m`, with `text`
/// unchanged if it holds no reset sequence. Whether colouring is on is
/// decided by `colored` from the environment, the terminal and its manual
/// override, and is taken not to change during the call.
#[verifier::external_body]
fn paint_red(text: &str) -> (out: String)
    ensures
        is_painted(out@, text@, Tone::Red),
{
    text.red().to_string()
}

/// Calls `colored::Colorize::green` on `text` and writes the result out with
/// `to_string`, that is through the `Display` impl of
/// `colored::ColoredString`.
///
/// Not proved: where colouring is off the result is `text`; where it is on
/// the result is `ESC[32m`, then `text`, then `ESC[0m`, with `text`
/// unchanged if it holds no reset sequence. Whether colouring is on is
/// decided by `colored` from the environment, the terminal and its manual
/// override, and is taken not to change during the call.
#[verifier::external_body]
fn paint_green(text: &str) -> (out: String)
    ensures
        is_painted(out@, text@, Tone::Green),
{
    text.green().to_string()
}

/// Calls `colored::Colorize::yellow` on `text` and writes the result out with
/// `to_string`, that is through the `Display` impl of
/// `colored::ColoredString`.
///
/// Not proved: where colouring is off the result is `text`; where it is on
/// the result is `ESC[33m`, then `text`, then `ESC[0m`, with `text`
/// unchanged if it holds no reset sequence. Whether colouring is on is
/// decided by `colored` from the environment, the terminal and its manual
/// override, and is taken not to change during the call.
#[verifier::external_body]
fn paint_yellow(text: &str) -> (out: String)
    ensures
        is_painted(out@, text@, Tone::Yellow),
{
    text.yellow().to_string()
}

/// Calls `colored::Colorize::blue` on `text` and writes the result out with
/// `to_string`, that is through the `Display` impl of
/// `colored::ColoredString`.
///
/// Not proved: where colouring is off the result is `text`; where it is on
/// the result is `ESC[34m`, then `text`, then `ESC[0m`, with `text`
/// unchanged if it holds no reset sequence. Whether colouring is on is
/// decided by `colored` from the environment, the terminal and its manual
/// override, and is taken not to change during the call.
#[verifier::external_body]
fn paint_blue(text: &str) -> (out: String)
    ensures
        is_painted(out@, text@, Tone::Blue),
{
    text.blue().to_string()
}

/// The characters that show `text` in `tone` on a terminal.
pub fn paint(text: &str, tone: Tone) -> (out: String)
    ensures
        is_painted(out@, text@, tone),
{
    match tone {
        Tone::Plain => String::from_str(text),
        Tone::Red => paint_red(text),
        Tone::Green => paint_green(text),
        Tone::Yellow => paint_yellow(text),
        Tone::Blue => paint_blue(text),
    }
}

} // verus!
