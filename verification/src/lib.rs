//! A countdown/stopwatch timer core with an audio-cue trigger scheduler.
//!
//! The library tracks elapsed and remaining time across pause, resume and
//! restart transitions, and decides on each clock tick whether a configured
//! cue is due, firing each cue at most once per cycle. All times are plain
//! millisecond counts; the caller supplies monotonic clock readings.

pub mod config;
pub mod engine;
pub mod scheduler;
pub mod timer_app;

use vstd::prelude::*;

verus! {

/// The errors the timer core can report. Neither is fatal: the state
/// machine stays usable after either.
#[derive(Debug, Clone, Copy, PartialEq, Eq, Structural)]
pub enum TimerError {
    /// A configuration source could not be parsed into (second, cue) pairs.
    ConfigParseError,
    /// A tick arrived with a timestamp earlier than the last one observed.
    ClockViolation,
}

} // verus!
