//! The decisions of an automated grading run.
//!
//! A run builds a learner's project, runs the grading binary against it, and
//! reports the verdict, with the logs of both commands streamed to the
//! console while they run. This library holds everything that is decided
//! in such a run; starting processes, reading pipes, looking at the file
//! system and printing are left to the program around it.
//!
//! - [`orchestrator`] is the run as a state machine: it takes what the
//!   caller observed and answers with the lines to print and the next
//!   thing to do.
//! - [`stage`] has the two stages, their commands, and the classification
//!   of how a command ended.
//! - [`streamer`] turns what arrives on the output streams of a command
//!   into tagged lines.
//! - [`messages`] has the response catalog and the other fixed texts.
//! - [`line`] and [`style`] say how a line appears on the console.
//! - [`run`] states what holds of whole runs.

pub mod line;
pub mod messages;
pub mod orchestrator;
pub mod run;
pub mod stage;
pub mod streamer;
pub mod style;
