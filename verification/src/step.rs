//! The steps of a routine: what they are called and how long they last.

use vstd::prelude::*;

verus! {

/// Number of nanoseconds in one second.
pub const NANOS_PER_SECOND: u128 = 1_000_000_000;

/// The longest duration a step can have, in nanoseconds: the largest whole
/// number of seconds that fits in an `i64`.
pub const MAX_STEP_NANOS: u128 = 9_223_372_036_854_775_807_000_000_000;

/// Which of the three steps of a routine a step is.
#[derive(Debug, Clone, Copy, PartialEq, Eq, Structural)]
pub enum StepId {
    /// The preparation before the first round. It is done once.
    Prep,
    /// The effort of a round.
    Work,
    /// The pause that ends a round.
    Rest,
}

/// The colour a step is shown in. The routine carries it along and leaves
/// its shade to whoever paints.
#[derive(Debug, Clone, Copy, PartialEq, Eq, Structural)]
pub enum StepColor {
    /// The colour of the preparation.
    Blue,
    /// The colour of work.
    Red,
    /// The colour of rest.
    Green,
}

/// One step of a routine, as it was configured.
#[derive(Debug, Clone, Copy)]
pub struct Step {
    /// Which step it is.
    pub id: StepId,
    /// The name it is shown under.
    pub name: &'static str,
    /// The colour it is shown in.
    pub color: StepColor,
    /// How long the step lasts, in nanoseconds. A step of no duration is
    /// skipped.
    pub duration: u128,
}

impl StepId {
    /// The place of the step in the order Prepare, Work, Rest.
    pub open spec fn index(self) -> int {
        match self {
            StepId::Prep => 0,
            StepId::Work => 1,
            StepId::Rest => 2,
        }
    }

    /// The step at place `i` of the order Prepare, Work, Rest.
    pub open spec fn at(i: int) -> StepId {
        if i == 0 {
            StepId::Prep
        } else if i == 1 {
            StepId::Work
        } else {
            StepId::Rest
        }
    }

    /// The colour a step of this kind is shown in.
    pub open spec fn tint(self) -> StepColor {
        match self {
            StepId::Prep => StepColor::Blue,
            StepId::Work => StepColor::Red,
            StepId::Rest => StepColor::Green,
        }
    }
}

impl Step {
    /// The step of kind `id` that lasts `duration` nanoseconds, under its
    /// usual name and colour.
    pub open spec fn of(id: StepId, duration: nat) -> Step {
        Step { id, name: Step::name_of(id), color: id.tint(), duration: duration as u128 }
    }

    /// The name that a step of kind `id` is shown under.
    pub open spec fn name_of(id: StepId) -> &'static str {
        match id {
            StepId::Prep => "Prepare",
            StepId::Work => "Work",
            StepId::Rest => "Rest",
        }
    }

    /// Builds the step of kind `id` that lasts `duration` nanoseconds.
    pub fn new(id: StepId, duration: u128) -> (step: Step)
        ensures
            step == Step::of(id, duration as nat),
    {
        match id {
            StepId::Prep => Step { id, name: "Prepare", color: StepColor::Blue, duration },
            StepId::Work => Step { id, name: "Work", color: StepColor::Red, duration },
            StepId::Rest => Step { id, name: "Rest", color: StepColor::Green, duration },
        }
    }
}

} // verus!
