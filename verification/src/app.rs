//! The timer itself: the state of a routine and the poll that keeps it up to
//! date.

use vstd::prelude::*;
use crate::clock::read_clock;
use crate::frame::Frame;
use crate::routine::Routine;
use crate::settings::Settings;
use crate::step::{Step, StepId, MAX_STEP_NANOS, NANOS_PER_SECOND};

verus! {

/// Number of steps in a routine.
pub const NR_STEPS: usize = 3;

/// A running routine. Its view is the [`Routine`] it stands for; instants
/// and durations are counted in nanoseconds.
pub struct App {
    /// The preparation, the work and the rest, in this order.
    steps: [Step; 3],
    /// The place in `steps` of the step that is counting down.
    step_idx: usize,
    /// The instant at which that step runs out.
    expiration: u128,
    /// The round that the routine is in, counted from one.
    round_nr: u64,
}

impl View for App {
    type V = Routine;

    closed spec fn view(&self) -> Routine {
        Routine {
            prep: self.steps[0].duration as nat,
            work: self.steps[1].duration as nat,
            rest: self.steps[2].duration as nat,
            active: StepId::at(self.step_idx as int),
            expires_at: self.expiration as nat,
            round: self.round_nr as nat,
        }
    }
}

impl App {
    /// What every `App` keeps: the three steps are the configured ones, each
    /// of a duration that `Settings` can express; the state is a valid one of
    /// the routine; and the active step began at an instant that the clock can
    /// show. The last line is why the round cannot overflow: a round takes two
    /// nanoseconds at least, so there are never more rounds than instants.
    #[verifier::type_invariant]
    spec fn inv(self) -> bool {
        &&& self.step_idx < 3
        &&& forall|i: int| 0 <= i < 3 ==> #[trigger] self.steps[i] == Step::of(
            StepId::at(i),
            self.steps[i].duration as nat,
        )
        &&& forall|i: int| 0 <= i < 3 ==> #[trigger] self.steps[i].duration <= MAX_STEP_NANOS
        &&& self@.valid()
        &&& self.expiration - self.steps[self.step_idx as int].duration <= u64::MAX
        &&& 2 * (self.round_nr - 1) <= self.expiration - self.steps[self.step_idx as int].duration
    }

    /// The routine that `settings` describes, as it is right after being set
    /// up at instant `now`.
    pub open spec fn configured(settings: Settings, now: nat) -> Routine {
        Routine::starting(
            settings.prep_duration as nat * NANOS_PER_SECOND as nat,
            settings.work_duration as nat * NANOS_PER_SECOND as nat,
            settings.rest_duration as nat * NANOS_PER_SECOND as nat,
            now,
        )
    }

    /// Whether `status` is what a poll at instant `now` reports of the
    /// routine `routine`, taken after the poll: its round, its active step
    /// and the time left in that step.
    pub open spec fn reports(routine: Routine, now: nat, status: (u64, Step, u128)) -> bool {
        &&& status.0 == routine.round
        &&& status.1 == Step::of(routine.active, routine.duration_of(routine.active))
        &&& status.2 == routine.remaining(now)
    }

    /// Sets up the routine that `settings` describes, at the instant that the
    /// clock shows.
    pub fn new(settings: Settings) -> (app: App)
        requires
            settings.is_valid(),
        ensures
            exists|now: u64| app@ == App::configured(settings, now as nat),
            app@.valid(),
            app@.runnable() == settings.is_runnable(),
    {
        let now = read_clock();
        App::starting_at(settings, now)
    }

    /// Sets up the routine that `settings` describes, at instant `now`: it
    /// is preparing, in its first round, and the preparation runs out its
    /// duration after `now`.
    pub fn starting_at(settings: Settings, now: u64) -> (app: App)
        requires
            settings.is_valid(),
        ensures
            app@ == App::configured(settings, now as nat),
            app@.valid(),
            app@.runnable() == settings.is_runnable(),
    {
        let prep = settings.prep_duration as u128 * NANOS_PER_SECOND;
        let work = settings.work_duration as u128 * NANOS_PER_SECOND;
        let rest = settings.rest_duration as u128 * NANOS_PER_SECOND;
        App {
            steps: [
                Step::new(StepId::Prep, prep),
                Step::new(StepId::Work, work),
                Step::new(StepId::Rest, rest),
            ],
            step_idx: 0,
            expiration: now as u128 + prep,
            round_nr: 1,
        }
    }

    /// Whether the search for the next step passes over the step at place
    /// `i`: the preparation, or a step of no duration.
    spec fn skipped(steps: [Step; 3], i: int) -> bool {
        i == 0 || steps[i].duration == 0
    }

    /// Whether the routine can be brought up to instant `now`: it cannot once
    /// the active step has run out and neither work nor rest lasts.
    pub fn can_advance(&self, now: u64) -> (yes: bool)
        ensures
            yes == self@.can_advance(now as nat),
    {
        now as u128 <= self.expiration || self.steps[1].duration > 0 || self.steps[2].duration > 0
    }

    /// Brings the routine up to instant `now` and reports the round, the
    /// active step and the time left in it, in nanoseconds.
    ///
    /// While the active step has not run out nothing changes. Once it has,
    /// the next step that lasts becomes active, with its whole duration left.
    /// The preparation is never returned to, and the round goes up by one each
    /// time the steps start over.
    pub fn advance(&mut self, now: u64) -> (status: (u64, Step, u128))
        requires
            old(self)@.can_advance(now as nat),
        ensures
            final(self)@ == old(self)@.advanced(now as nat),
            final(self)@.valid(),
            App::reports(final(self)@, now as nat, status),
    {
        proof {
            use_type_invariant(&*self);
        }
        let now: u128 = now as u128;
        if now <= self.expiration {
            return (self.round_nr, self.steps[self.step_idx], self.expiration - now);
        }
        // The active step is over. Pick the next one: not the preparation,
        // which is done once, and not a step of no duration. Passing the
        // last step ends the round.
        let steps = self.steps;
        let start = self.step_idx;
        let first_round = self.round_nr;
        let mut step_idx = self.step_idx;
        let mut round_nr = self.round_nr;
        let mut remaining: u128 = 0;
        let ghost mut passed: int = 0;
        loop
            invariant_except_break
                0 <= passed <= 2,
                step_idx == (start + passed) % 3,
                round_nr == first_round + (start + passed) / 3,
                passed >= 1 ==> Self::skipped(steps, (start + 1) % 3),
                passed >= 2 ==> Self::skipped(steps, (start + 2) % 3),
            invariant
                start < 3,
                first_round < u64::MAX - 1,
                start != 0 ==> steps[start as int].duration > 0,
                steps[1].duration > 0 || steps[2].duration > 0,
            ensures
                1 <= passed <= 3,
                step_idx == (start + passed) % 3,
                round_nr == first_round + (start + passed) / 3,
                step_idx != 0,
                remaining == steps[step_idx as int].duration,
                remaining > 0,
                passed > 1 ==> Self::skipped(steps, (start + 1) % 3),
                passed > 2 ==> Self::skipped(steps, (start + 2) % 3),
            decreases 3 - passed,
        {
            proof {
                passed = passed + 1;
            }
            step_idx += 1;
            if step_idx >= NR_STEPS {
                round_nr += 1;
                step_idx = step_idx % NR_STEPS;
            }
            if step_idx == 0 {
                continue ;
            }
            remaining = steps[step_idx].duration;
            if remaining == 0 {
                continue ;
            }
            break ;
        }
        *self = App { steps, step_idx, expiration: now + remaining, round_nr };
        (round_nr, steps[step_idx], remaining)
    }

    /// Brings the routine up to the instant that the clock shows, and reports
    /// as `advance` does. Whatever the clock shows, the routine ends up as a
    /// poll at that instant leaves it.
    pub fn tick(&mut self) -> (status: (u64, Step, u128))
        requires
            old(self)@.runnable(),
        ensures
            exists|now: u64|
                final(self)@ == old(self)@.advanced(now as nat) && App::reports(
                    final(self)@,
                    now as nat,
                    status,
                ),
            final(self)@.valid(),
    {
        let now = read_clock();
        self.advance(now)
    }

    /// Brings the routine up to instant `now` and draws up the frame that
    /// shows it.
    pub fn render_at(&mut self, now: u64) -> (frame: Frame)
        requires
            old(self)@.can_advance(now as nat),
        ensures
            final(self)@ == old(self)@.advanced(now as nat),
            final(self)@.valid(),
            frame.shows(
                final(self)@.round,
                Step::of(final(self)@.active, final(self)@.duration_of(final(self)@.active)),
                final(self)@.remaining(now as nat),
            ),
    {
        let (round_nr, step, remaining) = self.advance(now);
        Frame::new(round_nr, step, remaining)
    }

    /// Brings the routine up to the instant that the clock shows and draws
    /// up the frame that shows it.
    pub fn on_render(&mut self) -> (frame: Frame)
        requires
            old(self)@.runnable(),
        ensures
            exists|now: u64|
                final(self)@ == old(self)@.advanced(now as nat) && frame.shows(
                    final(self)@.round,
                    Step::of(final(self)@.active, final(self)@.duration_of(final(self)@.active)),
                    final(self)@.remaining(now as nat),
                ),
            final(self)@.valid(),
    {
        let now = read_clock();
        self.render_at(now)
    }

    /// The round that the routine is in.
    pub fn round_nr(&self) -> (round_nr: u64)
        ensures
            round_nr == self@.round,
    {
        self.round_nr
    }

    /// The step that is counting down.
    pub fn step(&self) -> (step: Step)
        ensures
            step == Step::of(self@.active, self@.duration_of(self@.active)),
    {
        proof {
            use_type_invariant(self);
        }
        self.steps[self.step_idx]
    }

    /// The instant at which the active step runs out.
    pub fn expiration(&self) -> (expiration: u128)
        ensures
            expiration == self@.expires_at,
    {
        self.expiration
    }

    /// Whether the work or the rest of the routine lasts, so that it can be
    /// polled for ever.
    pub fn is_runnable(&self) -> (runnable: bool)
        ensures
            runnable == self@.runnable(),
    {
        self.steps[1].duration > 0 || self.steps[2].duration > 0
    }
}

} // verus!
