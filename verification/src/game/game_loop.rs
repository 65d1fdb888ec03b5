//! The clock of the game: 240 fixed updates per second, and never more than
//! one sixtieth of a second of catching up per frame.

use crate::time::Time;
use crate::timestep::{nanos_to_ticks, FixedTimestep, Tick};
use vstd::prelude::*;

verus! {

/// Frames per second that the loop is paced for.
pub const FPS: u64 = 60;

/// Fixed updates per second.
pub const UPS: u64 = 240;

/// The most time that one frame may add to the accumulator: 1/60 s in ticks.
pub const MAX_FRAME_TIME: u64 = 50_000_000;

/// The length of one fixed update: 1/240 s in ticks.
pub const FIXED_TIME_STEP: u64 = 12_500_000;

/// The most updates that a single frame can ask for.
pub const MAX_UPDATES_PER_FRAME: u64 = 4;

pub struct GameLoop {
    previous_instant: Time,
    timestep: FixedTimestep,
}

impl GameLoop {
    /// The accumulator of the loop.
    pub closed spec fn timestep(&self) -> FixedTimestep {
        self.timestep
    }

    /// The accumulator runs at the loop's fixed rates and holds less than one
    /// step.
    pub open spec fn wf(&self) -> bool {
        &&& self.timestep().wf()
        &&& self.timestep().drained()
        &&& self.timestep().step() == FIXED_TIME_STEP
        &&& self.timestep().cap() == MAX_FRAME_TIME
    }

    /// A loop that starts counting now, with an empty accumulator.
    pub fn new() -> (game_loop: GameLoop)
        ensures
            game_loop.wf(),
            game_loop.timestep().accumulated() == 0,
    {
        GameLoop {
            previous_instant: Time::now(),
            timestep: FixedTimestep::new(FIXED_TIME_STEP, MAX_FRAME_TIME),
        }
    }

    /// The time carried over from the last frame, in ticks.
    pub fn accumulated_time(&self) -> (ticks: u64)
        ensures
            ticks == self.timestep().accumulated(),
    {
        self.timestep.accumulated_time()
    }

    /// One frame whose elapsed time is given: says how many fixed updates to
    /// run and with what blending factor to draw.
    pub fn step(&mut self, elapsed: u64) -> (tick: Tick)
        requires
            old(self).wf(),
        ensures
            final(self).wf(),
            final(self).timestep().accumulated() == old(self).timestep().left_over(elapsed as int),
            tick.elapsed == elapsed,
            tick.updates == old(self).timestep().updates_due(elapsed as int),
            tick.updates <= MAX_UPDATES_PER_FRAME,
            tick.blending_factor.numerator == old(self).timestep().left_over(elapsed as int),
            tick.blending_factor.denominator == FIXED_TIME_STEP,
    {
        proof {
            crate::timestep::lemma_bounded_catch_up(self.timestep, elapsed as int);
        }
        self.timestep.advance(elapsed)
    }

    /// One frame, timed by the clock: measures the time since the previous
    /// frame and steps the loop by it. The measured time is reported in the
    /// tick that comes back.
    pub fn update(&mut self) -> (tick: Tick)
        requires
            old(self).wf(),
        ensures
            final(self).wf(),
            final(self).timestep().accumulated() == old(self).timestep().left_over(
                tick.elapsed as int,
            ),
            tick.updates == old(self).timestep().updates_due(tick.elapsed as int),
            tick.updates <= MAX_UPDATES_PER_FRAME,
            tick.blending_factor.numerator == old(self).timestep().left_over(tick.elapsed as int),
            tick.blending_factor.denominator == FIXED_TIME_STEP,
    {
        let current_instant = Time::now();
        let elapsed: u64 = nanos_to_ticks(current_instant.sub(&self.previous_instant));
        let tick = self.step(elapsed);
        self.previous_instant = current_instant;
        tick
    }
}

} // verus!
