//! What a routine shows: a line that names the round and the step, and the
//! time left on the clock.

use vstd::prelude::*;
use vstd::string::*;
use crate::decimal::{decimal, decimal_two_places, format_decimal, format_two_places};
use crate::step::{Step, StepColor, NANOS_PER_SECOND};

verus! {

/// Number of nanoseconds in one minute.
pub const NANOS_PER_MINUTE: u128 = 60_000_000_000;

/// Number of nanoseconds in one tenth of a second.
pub const NANOS_PER_TENTH: u128 = 100_000_000;

/// One picture of a routine, ready to be painted.
pub struct Frame {
    /// The round and the name of the step, as in `Round 2 | Work`.
    pub label: String,
    /// The time left, as in `01:29.5`.
    pub time_remaining: String,
    /// The colour of the background.
    pub color: StepColor,
}

/// The line that names round `round` and the step called `name`.
pub open spec fn label_text(round: nat, name: Seq<char>) -> Seq<char> {
    "Round "@ + decimal(round) + " | "@ + name
}

/// The clock face for `nanos` nanoseconds: whole minutes in two places at
/// least, the seconds of the running minute in two places, and the tenths of
/// the running second. What is less than a tenth is dropped.
pub open spec fn clock_text(nanos: nat) -> Seq<char> {
    decimal_two_places(nanos / NANOS_PER_MINUTE as nat) + ":"@ + decimal_two_places(
        (nanos / NANOS_PER_SECOND as nat) % 60,
    ) + "."@ + decimal((nanos / NANOS_PER_TENTH as nat) % 10)
}

/// Writes the line that names the round and the step.
pub fn format_label(round: u64, name: &str) -> (text: String)
    ensures
        text@ == label_text(round as nat, name@),
{
    let mut text = String::from_str("Round ");
    let number = format_decimal(round as u128);
    text.append(number.as_str());
    text.append(" | ");
    text.append(name);
    text
}

/// Writes the clock face for a time of `nanos` nanoseconds.
pub fn format_clock(nanos: u128) -> (text: String)
    ensures
        text@ == clock_text(nanos as nat),
{
    let mut text = format_two_places(nanos / NANOS_PER_MINUTE);
    let seconds = format_two_places((nanos / NANOS_PER_SECOND) % 60);
    let tenths = format_decimal((nanos / NANOS_PER_TENTH) % 10);
    text.append(":");
    text.append(seconds.as_str());
    text.append(".");
    text.append(tenths.as_str());
    text
}

impl Frame {
    /// Whether the frame shows round `round` in step `step` with `remaining`
    /// nanoseconds left.
    pub open spec fn shows(self, round: nat, step: Step, remaining: nat) -> bool {
        &&& self.label@ == label_text(round, step.name@)
        &&& self.time_remaining@ == clock_text(remaining)
        &&& self.color == step.color
    }

    /// The frame for round `round` in step `step` with `remaining`
    /// nanoseconds left.
    pub fn new(round: u64, step: Step, remaining: u128) -> (frame: Frame)
        ensures
            frame.shows(round as nat, step, remaining as nat),
    {
        Frame {
            label: format_label(round, step.name),
            time_remaining: format_clock(remaining),
            color: step.color,
        }
    }
}

} // verus!
