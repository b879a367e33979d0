//! The mathematical model of a running routine.
//!
//! A routine prepares once and then alternates work and rest for as long as
//! it is polled. Time is a count of nanoseconds on a clock that only moves
//! forward. Every poll hands in the clock's reading: when the active step
//! has run out, the routine moves on to the next step that lasts, and that
//! step's time starts at the reading of the poll that found it.

use vstd::prelude::*;
use crate::step::StepId;

verus! {

/// State of a routine: the three durations it was configured with, the step
/// that is counting down, the instant at which that step runs out, and the
/// round it belongs to.
pub struct Routine {
    pub prep: nat,
    pub work: nat,
    pub rest: nat,
    pub active: StepId,
    pub expires_at: nat,
    pub round: nat,
}

impl Routine {
    /// The routine as it is right after being set up at instant `now`:
    /// preparing, in its first round.
    pub open spec fn starting(prep: nat, work: nat, rest: nat, now: nat) -> Routine {
        Routine { prep, work, rest, active: StepId::Prep, expires_at: now + prep, round: 1 }
    }

    /// The configured duration of a step.
    pub open spec fn duration_of(self, id: StepId) -> nat {
        match id {
            StepId::Prep => self.prep,
            StepId::Work => self.work,
            StepId::Rest => self.rest,
        }
    }

    /// What holds of every state a routine can be in: rounds count from one,
    /// a step other than the preparation is only ever active if it lasts, and
    /// the active step did not begin before the clock's origin.
    pub open spec fn valid(self) -> bool {
        &&& self.round >= 1
        &&& self.active != StepId::Prep ==> self.duration_of(self.active) > 0
        &&& self.expires_at >= self.duration_of(self.active)
    }

    /// Whether there is a step to move on to once the active one runs out.
    /// A routine with neither work nor rest has none.
    pub open spec fn runnable(self) -> bool {
        self.work > 0 || self.rest > 0
    }

    /// The instant at which the active step began.
    pub open spec fn began_at(self) -> int {
        self.expires_at - self.duration_of(self.active)
    }

    /// Whether the active step has run out at instant `now`. At the very
    /// instant of expiry it has not: the step is shown with no time left
    /// before it gives way.
    pub open spec fn due(self, now: nat) -> bool {
        now > self.expires_at
    }

    /// The step that follows the active one: the nearest step after it, in
    /// the cycle work, rest, work, ..., that lasts.
    pub open spec fn successor(self) -> StepId {
        match self.active {
            StepId::Prep | StepId::Rest => if self.work > 0 {
                StepId::Work
            } else {
                StepId::Rest
            },
            StepId::Work => if self.rest > 0 {
                StepId::Rest
            } else {
                StepId::Work
            },
        }
    }

    /// Whether moving on to the successor ends a round: it does unless the
    /// successor comes later in the same pass through prepare, work, rest.
    pub open spec fn completes_round(self) -> bool {
        self.successor().index() <= self.active.index()
    }

    /// Whether the routine can be brought up to instant `now`.
    pub open spec fn can_advance(self, now: nat) -> bool {
        self.due(now) ==> self.runnable()
    }

    /// The routine brought up to instant `now`. If the active step has not
    /// run out, nothing changes. Otherwise the successor becomes active with
    /// its whole duration ahead of it, counted from `now`.
    pub open spec fn advanced(self, now: nat) -> Routine {
        if self.due(now) {
            Routine {
                active: self.successor(),
                expires_at: now + self.duration_of(self.successor()),
                round: if self.completes_round() {
                    self.round + 1
                } else {
                    self.round
                },
                ..self
            }
        } else {
            self
        }
    }

    /// The time left in the active step at instant `now`, none once it has
    /// run out.
    pub open spec fn remaining(self, now: nat) -> nat {
        if self.due(now) {
            0
        } else {
            (self.expires_at - now) as nat
        }
    }

    /// The routine after being polled at each instant of `polls` in turn.
    pub open spec fn polled(self, polls: Seq<nat>) -> Routine
        decreases polls.len(),
    {
        if polls.len() == 0 {
            self
        } else {
            self.polled(polls.drop_last()).advanced(polls.last())
        }
    }
}

/// The rules that every routine keeps, whatever its durations and however it
/// is polled.
impl Routine {
    /// A routine that has just been set up is in a valid state.
    pub proof fn lemma_starting_valid(prep: nat, work: nat, rest: nat, now: nat)
        ensures
            Routine::starting(prep, work, rest, now).valid(),
    {
    }

    /// A poll leaves a valid routine valid and its durations as they were.
    pub proof fn lemma_advanced_valid(self, now: nat)
        requires
            self.valid(),
            self.can_advance(now),
        ensures
            self.advanced(now).valid(),
            self.advanced(now).prep == self.prep,
            self.advanced(now).work == self.work,
            self.advanced(now).rest == self.rest,
    {
    }

    /// A poll never takes the round back and never adds more than one. The
    /// round goes up exactly when a step that has run out gives way to one
    /// that does not come later in the same pass; going from rest back to
    /// work always does so.
    pub proof fn lemma_round_step(self, now: nat)
        ensures
            self.round <= self.advanced(now).round <= self.round + 1,
            self.advanced(now).round == self.round + 1 <==> self.due(now)
                && self.completes_round(),
            self.active == StepId::Rest && self.advanced(now).active == StepId::Work
                ==> self.advanced(now).round == self.round + 1,
    {
    }

    /// In a routine whose work and rest both last, the round goes up on the
    /// way from rest back to work and nowhere else.
    pub proof fn lemma_round_counts_rests(self, now: nat)
        requires
            self.work > 0,
            self.rest > 0,
        ensures
            self.advanced(now).round == self.round + 1 <==> self.active == StepId::Rest
                && self.advanced(now).active == StepId::Work,
    {
    }

    /// However a routine is polled, its round never goes down.
    pub proof fn lemma_round_monotonic(self, polls: Seq<nat>)
        ensures
            self.polled(polls).round >= self.round,
        decreases polls.len(),
    {
        if polls.len() > 0 {
            self.lemma_round_monotonic(polls.drop_last());
            self.polled(polls.drop_last()).lemma_round_step(polls.last());
        }
    }

    /// The round after more polls is no less than the round after fewer.
    pub proof fn lemma_round_monotonic_between(self, polls: Seq<nat>, i: int, j: int)
        requires
            0 <= i <= j <= polls.len(),
        ensures
            self.polled(polls.take(i)).round <= self.polled(polls.take(j)).round,
        decreases j - i,
    {
        if i < j {
            self.lemma_round_monotonic_between(polls, i, j - 1);
            assert(polls.take(j).drop_last() == polls.take(j - 1));
            self.polled(polls.take(j - 1)).lemma_round_step(polls[j - 1]);
        }
    }

    /// However a runnable routine is polled, it stays valid.
    pub proof fn lemma_polled_valid(self, polls: Seq<nat>)
        requires
            self.valid(),
            self.runnable(),
        ensures
            self.polled(polls).valid(),
            self.polled(polls).runnable(),
            self.polled(polls).prep == self.prep,
            self.polled(polls).work == self.work,
            self.polled(polls).rest == self.rest,
        decreases polls.len(),
    {
        if polls.len() > 0 {
            self.lemma_polled_valid(polls.drop_last());
        }
    }

    /// The step that a poll reports lasts, and so does every step once the
    /// routine has moved on for the first time. The one step of no duration
    /// that can be reported is a preparation of none, until the first poll
    /// after the routine was set up.
    pub proof fn lemma_active_step_lasts(self, now: nat)
        requires
            self.valid(),
            self.can_advance(now),
            self.due(now) || self.active != StepId::Prep || self.prep > 0,
        ensures
            self.advanced(now).duration_of(self.advanced(now).active) > 0,
    {
    }

    /// However a runnable routine is polled, its active step lasts, unless
    /// it set out with a preparation of no duration.
    pub proof fn lemma_active_step_lasts_throughout(self, polls: Seq<nat>)
        requires
            self.valid(),
            self.runnable(),
            self.active != StepId::Prep || self.prep > 0,
        ensures
            self.polled(polls).duration_of(self.polled(polls).active) > 0,
        decreases polls.len(),
    {
        if polls.len() > 0 {
            self.lemma_polled_valid(polls.drop_last());
            self.lemma_active_step_lasts_throughout(polls.drop_last());
        }
    }

    /// A step that a poll moves on to is never the preparation, and a routine
    /// that is past its preparation stays past it.
    pub proof fn lemma_prepare_once(self, now: nat)
        ensures
            self.due(now) ==> self.advanced(now).active != StepId::Prep,
            self.active != StepId::Prep ==> self.advanced(now).active != StepId::Prep,
    {
    }

    /// Once a routine has left its preparation, no sequence of polls brings
    /// it back.
    pub proof fn lemma_prepare_never_again(self, polls: Seq<nat>)
        requires
            self.active != StepId::Prep,
        ensures
            self.polled(polls).active != StepId::Prep,
        decreases polls.len(),
    {
        if polls.len() > 0 {
            self.lemma_prepare_never_again(polls.drop_last());
        }
    }

    /// A routine that is preparing after some polls was preparing after any
    /// fewer of them, and none of the polls in between found the preparation
    /// run out.
    pub proof fn lemma_prepare_only_at_first(self, polls: Seq<nat>, i: int, j: int)
        requires
            0 <= i <= j <= polls.len(),
            self.polled(polls.take(j)).active == StepId::Prep,
        ensures
            self.polled(polls.take(i)).active == StepId::Prep,
            i < j ==> !self.polled(polls.take(i)).due(polls[i]),
        decreases j - i,
    {
        if i < j {
            assert(polls.take(j).drop_last() == polls.take(j - 1));
            self.lemma_prepare_only_at_first(polls, i, j - 1);
            if i < j - 1 {
            } else {
                assert(polls.take(j - 1) == polls.take(i));
            }
        }
    }

    /// The time left that a poll reports is never more than the active step
    /// lasts, as long as the clock has not gone back to before that step
    /// began.
    pub proof fn lemma_remaining_bounded(self, now: nat)
        requires
            self.valid(),
            now >= self.began_at(),
        ensures
            self.advanced(now).remaining(now) <= self.advanced(now).duration_of(
                self.advanced(now).active,
            ),
    {
    }

    /// The active step of a polled routine began no later than that poll.
    pub proof fn lemma_began_by_now(self, now: nat)
        requires
            self.valid(),
            now >= self.began_at(),
        ensures
            self.advanced(now).began_at() <= now,
    {
    }

    /// On a clock that never goes back, the time left that any poll reports
    /// is at most the duration of the step it reports.
    pub proof fn lemma_remaining_bounded_throughout(self, polls: Seq<nat>)
        requires
            self.valid(),
            self.runnable(),
            polls.len() > 0,
            polls[0] >= self.began_at(),
            forall|i: int, j: int| 0 <= i <= j < polls.len() ==> polls[i] <= polls[j],
        ensures
            self.polled(polls).began_at() <= polls.last(),
            self.polled(polls).remaining(polls.last()) <= self.polled(polls).duration_of(
                self.polled(polls).active,
            ),
        decreases polls.len(),
    {
        let earlier = polls.drop_last();
        self.lemma_polled_valid(earlier);
        if earlier.len() > 0 {
            self.lemma_remaining_bounded_throughout(earlier);
            assert(earlier.last() == polls[polls.len() - 2]);
        }
        self.polled(earlier).lemma_began_by_now(polls.last());
        self.polled(earlier).lemma_remaining_bounded(polls.last());
    }

    /// A routine without work never reports work: once its preparation has
    /// run out it goes straight to rest, and from rest to rest.
    pub proof fn lemma_no_work_skips_to_rest(self, now: nat)
        requires
            self.valid(),
            self.can_advance(now),
            self.work == 0,
        ensures
            self.advanced(now).active != StepId::Work,
            self.due(now) ==> self.advanced(now).active == StepId::Rest,
            self.active != StepId::Prep ==> self.advanced(now).active == StepId::Rest,
    {
    }

    /// A routine without work reports no work after any polls, and rest after
    /// any poll that found the preparation run out.
    pub proof fn lemma_no_work_ever(self, polls: Seq<nat>)
        requires
            self.valid(),
            self.work == 0,
            self.rest > 0,
        ensures
            self.polled(polls).active != StepId::Work,
            polls.len() > 0 && self.polled(polls.drop_last()).due(polls.last()) ==> self.polled(
                polls,
            ).active == StepId::Rest,
        decreases polls.len(),
    {
        if polls.len() > 0 {
            self.lemma_no_work_ever(polls.drop_last());
            self.lemma_polled_valid(polls.drop_last());
            self.polled(polls.drop_last()).lemma_no_work_skips_to_rest(polls.last());
        }
    }

    /// Likewise a routine without rest never reports rest.
    pub proof fn lemma_no_rest_skips_to_work(self, now: nat)
        requires
            self.valid(),
            self.can_advance(now),
            self.rest == 0,
        ensures
            self.advanced(now).active != StepId::Rest,
            self.due(now) ==> self.advanced(now).active == StepId::Work,
    {
    }

    /// Polling twice at the same instant is the same as polling once: the
    /// second poll changes nothing and reports what the first reported.
    pub proof fn lemma_repeated_poll(self, now: nat)
        ensures
            self.advanced(now).advanced(now) == self.advanced(now),
            !self.advanced(now).due(now),
    {
    }

    /// A poll that finds the active step run out leaves the next step its
    /// whole duration, counted from the instant of the poll.
    pub proof fn lemma_fresh_step_is_whole(self, now: nat)
        requires
            self.due(now),
        ensures
            self.advanced(now).began_at() == now,
            self.advanced(now).remaining(now) == self.advanced(now).duration_of(
                self.advanced(now).active,
            ),
    {
    }
}

} // verus!
