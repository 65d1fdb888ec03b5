//! The application clock: 240 fixed updates per second, and never more than
//! a tenth of a second of catching up per frame.

use crate::time::Time;
use crate::timestep::{nanos_to_ticks, FixedTimestep, Tick};
use vstd::prelude::*;

verus! {

/// The most time that one frame may add to the accumulator: 0.1 s in ticks.
pub const MAX_FRAME_TIME: u64 = 300_000_000;

/// The length of one fixed update: 1/240 s in ticks.
pub const FIXED_TIME_STEP: u64 = 12_500_000;

/// The most updates that a single frame can run.
pub const MAX_UPDATES_PER_FRAME: u64 = 24;

pub struct Application {
    previous_instant: Time,
    timestep: FixedTimestep,
}

impl Application {
    /// The accumulator of the application.
    pub closed spec fn timestep(&self) -> FixedTimestep {
        self.timestep
    }

    /// The accumulator runs at the rates of the application.
    pub open spec fn wf(&self) -> bool {
        &&& self.timestep().wf()
        &&& self.timestep().step() == FIXED_TIME_STEP
        &&& self.timestep().cap() == MAX_FRAME_TIME
    }

    /// An application that starts counting now, with an empty accumulator.
    pub fn new() -> (application: Application)
        ensures
            application.wf(),
            application.timestep().accumulated() == 0,
    {
        Application {
            previous_instant: Time::now(),
            timestep: FixedTimestep::new(FIXED_TIME_STEP, MAX_FRAME_TIME),
        }
    }

    /// The time carried over from the last frame, in ticks.
    pub fn accumulated_time(&self) -> (ticks: u64)
        ensures
            ticks == self.timestep().accumulated(),
    {
        self.timestep.accumulated_time()
    }

    /// Whether a whole step has accumulated, so that an update is due.
    pub fn update_due(&self) -> (due: bool)
        ensures
            due == (self.timestep().accumulated() >= self.timestep().step()),
    {
        self.timestep.ready()
    }

    /// One fixed update: takes one step out of the accumulator.
    pub fn update(&mut self)
        requires
            old(self).wf(),
            old(self).timestep().accumulated() >= FIXED_TIME_STEP,
        ensures
            final(self).wf(),
            final(self).timestep().accumulated() == old(self).timestep().accumulated()
                - FIXED_TIME_STEP,
    {
        self.timestep.consume();
    }

    /// One frame whose elapsed time is given: adds the time, clamped, to the
    /// accumulator, runs one update for every whole step in it, and says how
    /// many it ran and with what blending factor to draw.
    pub fn frame(&mut self, elapsed: u64) -> (tick: Tick)
        requires
            old(self).wf(),
            old(self).timestep().drained(),
        ensures
            final(self).wf(),
            final(self).timestep().drained(),
            final(self).timestep().accumulated() == old(self).timestep().left_over(elapsed as int),
            tick.elapsed == elapsed,
            tick.updates == old(self).timestep().updates_due(elapsed as int),
            tick.updates <= MAX_UPDATES_PER_FRAME,
            tick.blending_factor.numerator == old(self).timestep().left_over(elapsed as int),
            tick.blending_factor.denominator == FIXED_TIME_STEP,
    {
        proof {
            crate::timestep::lemma_bounded_catch_up(self.timestep, elapsed as int);
        }
        self.timestep.accumulate(elapsed);
        let ghost total: int = self.timestep().accumulated();
        let mut updates: u64 = 0;
        while self.update_due()
            invariant
                self.wf(),
                updates * FIXED_TIME_STEP + self.timestep().accumulated() == total,
                total <= u64::MAX,
            decreases self.timestep().accumulated(),
        {
            self.update();
            updates = updates + 1;
        }
        let blending_factor = self.timestep.blending_factor();
        proof {
            crate::timestep::lemma_tick_is_division(
                updates as int,
                blending_factor.numerator as int,
                total,
                FIXED_TIME_STEP as int,
            );
        }
        Tick { elapsed, updates, blending_factor }
    }

    /// One frame, timed by the clock: measures the time since the previous
    /// frame and runs the frame of that length. The measured time is
    /// reported in the tick that comes back.
    pub fn redraw(&mut self) -> (tick: Tick)
        requires
            old(self).wf(),
            old(self).timestep().drained(),
        ensures
            final(self).wf(),
            final(self).timestep().drained(),
            final(self).timestep().accumulated() == old(self).timestep().left_over(
                tick.elapsed as int,
            ),
            tick.updates == old(self).timestep().updates_due(tick.elapsed as int),
            tick.updates <= MAX_UPDATES_PER_FRAME,
            tick.blending_factor.numerator == old(self).timestep().left_over(tick.elapsed as int),
            tick.blending_factor.denominator == FIXED_TIME_STEP,
    {
        let current_instant = Time::now();
        let elapsed: u64 = nanos_to_ticks(current_instant.sub(&self.previous_instant));
        let tick = self.frame(elapsed);
        self.previous_instant = current_instant;
        tick
    }
}

} // verus!
