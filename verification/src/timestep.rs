//! The fixed-timestep accumulator.
//!
//! Time is counted in ticks, three to the nanosecond, so that both 1/240 s
//! and 1/60 s are whole numbers of ticks.

use vstd::prelude::*;

verus! {

/// Ticks in one nanosecond.
pub const TICKS_PER_NANOSECOND: u64 = 3;

/// Ticks in one second.
pub const TICKS_PER_SECOND: u64 = 3_000_000_000;

/// Ticks elapsed in `nanos` nanoseconds, as a mathematical integer capped at
/// `u64::MAX`.
pub open spec fn ticks_of_nanos(nanos: int) -> int {
    if nanos * TICKS_PER_NANOSECOND > u64::MAX as int {
        u64::MAX as int
    } else {
        nanos * TICKS_PER_NANOSECOND
    }
}

/// The largest number of nanoseconds whose ticks fit in 64 bits: a third of
/// `u64::MAX`.
pub const MAX_WHOLE_NANOS: u128 = 6_148_914_691_236_517_205;

/// Converts a nanosecond count to ticks, saturating at `u64::MAX`.
pub fn nanos_to_ticks(nanos: u128) -> (ticks: u64)
    ensures
        ticks as int == ticks_of_nanos(nanos as int),
{
    if nanos > MAX_WHOLE_NANOS {
        u64::MAX
    } else {
        let n: u64 = nanos as u64;
        n * TICKS_PER_NANOSECOND
    }
}

/// The weight `numerator / denominator` with which the current simulation
/// state is blended over the previous one when a frame is drawn.
#[derive(Clone, Copy, Debug, PartialEq, Eq)]
pub struct BlendFactor {
    pub numerator: u64,
    pub denominator: u64,
}

impl BlendFactor {
    /// A blending factor lies in the half-open interval from 0 to 1.
    pub open spec fn wf(&self) -> bool {
        self.numerator < self.denominator
    }

    /// Whether the factor is exactly zero.
    pub fn is_zero(&self) -> (zero: bool)
        ensures
            zero == (self.numerator == 0),
    {
        self.numerator == 0
    }
}

/// What one tick of the loop decided: how many fixed updates to run and how
/// to blend the two latest simulation states for drawing.
#[derive(Clone, Copy, Debug, PartialEq, Eq)]
pub struct Tick {
    /// The time measured since the previous tick, before clamping.
    pub elapsed: u64,
    /// The number of fixed updates that this tick runs.
    pub updates: u64,
    /// The weight of the current state in the drawn frame.
    pub blending_factor: BlendFactor,
}

/// The elapsed time that counts for one tick: never more than `cap`.
pub open spec fn clamped(elapsed: int, cap: int) -> int {
    if elapsed > cap {
        cap
    } else {
        elapsed
    }
}

/// The accumulator of a fixed-timestep loop.
#[derive(Clone, Copy, Debug, PartialEq, Eq)]
pub struct FixedTimestep {
    accumulated_time: u64,
    fixed_time_step: u64,
    max_frame_time: u64,
}

impl FixedTimestep {
    /// The time not yet consumed by an update.
    pub closed spec fn accumulated(&self) -> int {
        self.accumulated_time as int
    }

    /// The length of one update.
    pub closed spec fn step(&self) -> int {
        self.fixed_time_step as int
    }

    /// The most that one tick may add to the accumulator.
    pub closed spec fn cap(&self) -> int {
        self.max_frame_time as int
    }

    /// The step is positive and a clamped frame never overflows the
    /// accumulator.
    pub open spec fn wf(&self) -> bool {
        &&& self.step() > 0
        &&& self.step() + self.cap() <= u64::MAX
        &&& 0 <= self.accumulated() <= u64::MAX
        &&& 0 <= self.cap()
    }

    /// Between ticks less than one step is left over.
    pub open spec fn drained(&self) -> bool {
        self.accumulated() < self.step()
    }

    /// The accumulator right after a frame of `elapsed` ticks was added and
    /// before any update ran.
    pub open spec fn total_after(&self, elapsed: int) -> int {
        self.accumulated() + clamped(elapsed, self.cap())
    }

    /// The number of updates that a tick of `elapsed` ticks runs.
    pub open spec fn updates_due(&self, elapsed: int) -> int {
        self.total_after(elapsed) / self.step()
    }

    /// What a tick of `elapsed` ticks leaves in the accumulator.
    pub open spec fn left_over(&self, elapsed: int) -> int {
        self.total_after(elapsed) % self.step()
    }

    /// A loop with an empty accumulator.
    pub fn new(fixed_time_step: u64, max_frame_time: u64) -> (timestep: FixedTimestep)
        requires
            fixed_time_step > 0,
            fixed_time_step + max_frame_time <= u64::MAX,
        ensures
            timestep.wf(),
            timestep.accumulated() == 0,
            timestep.step() == fixed_time_step,
            timestep.cap() == max_frame_time,
    {
        FixedTimestep { accumulated_time: 0, fixed_time_step, max_frame_time }
    }

    pub fn accumulated_time(&self) -> (ticks: u64)
        ensures
            ticks == self.accumulated(),
    {
        self.accumulated_time
    }

    pub fn fixed_time_step(&self) -> (ticks: u64)
        ensures
            ticks == self.step(),
    {
        self.fixed_time_step
    }

    pub fn max_frame_time(&self) -> (ticks: u64)
        ensures
            ticks == self.cap(),
    {
        self.max_frame_time
    }

    /// Adds the elapsed time of a frame, clamped to the cap.
    pub fn accumulate(&mut self, elapsed: u64)
        requires
            old(self).wf(),
            old(self).drained(),
        ensures
            final(self).wf(),
            final(self).step() == old(self).step(),
            final(self).cap() == old(self).cap(),
            final(self).accumulated() == old(self).accumulated() + clamped(
                elapsed as int,
                old(self).cap(),
            ),
    {
        let counted: u64 = if elapsed > self.max_frame_time {
            self.max_frame_time
        } else {
            elapsed
        };
        self.accumulated_time = self.accumulated_time + counted;
    }

    /// Whether a whole step has accumulated.
    pub fn ready(&self) -> (ready: bool)
        ensures
            ready == (self.accumulated() >= self.step()),
    {
        self.accumulated_time >= self.fixed_time_step
    }

    /// Consumes one step from the accumulator.
    pub fn consume(&mut self)
        requires
            old(self).accumulated() >= old(self).step(),
        ensures
            final(self).accumulated() == old(self).accumulated() - old(self).step(),
            final(self).step() == old(self).step(),
            final(self).cap() == old(self).cap(),
            old(self).wf() ==> final(self).wf(),
    {
        self.accumulated_time = self.accumulated_time - self.fixed_time_step;
    }

    /// The blending factor for what is left in the accumulator.
    pub fn blending_factor(&self) -> (factor: BlendFactor)
        ensures
            factor.numerator == self.accumulated(),
            factor.denominator == self.step(),
            self.drained() ==> factor.wf(),
    {
        BlendFactor { numerator: self.accumulated_time, denominator: self.fixed_time_step }
    }

    /// One tick: clamp the elapsed time, add it to the accumulator, and take
    /// out as many whole steps as fit.
    pub fn advance(&mut self, elapsed: u64) -> (tick: Tick)
        requires
            old(self).wf(),
            old(self).drained(),
        ensures
            final(self).wf(),
            final(self).drained(),
            final(self).step() == old(self).step(),
            final(self).cap() == old(self).cap(),
            final(self).accumulated() == old(self).left_over(elapsed as int),
            tick.elapsed == elapsed,
            tick.updates == old(self).updates_due(elapsed as int),
            tick.blending_factor.numerator == old(self).left_over(elapsed as int),
            tick.blending_factor.denominator == old(self).step(),
            tick.blending_factor.wf(),
    {
        self.accumulate(elapsed);
        let ghost total: int = self.accumulated();
        let mut updates: u64 = 0;
        while self.ready()
            invariant
                self.wf(),
                self.step() == old(self).step(),
                self.cap() == old(self).cap(),
                updates * self.step() + self.accumulated() == total,
                total <= u64::MAX,
            decreases self.accumulated(),
        {
            proof {
                assert(updates * self.step() >= updates) by (nonlinear_arith)
                    requires
                        self.step() >= 1,
                        updates >= 0,
                ;
                assert((updates + 1) * self.step() == updates * self.step() + self.step())
                    by (nonlinear_arith);
            }
            self.consume();
            updates = updates + 1;
        }
        proof {
            lemma_tick_is_division(updates as int, self.accumulated(), total, self.step());
        }
        Tick { elapsed, updates, blending_factor: self.blending_factor() }
    }
}

/// How many updates a tick runs and what it leaves behind are the quotient
/// and the remainder of the accumulated time by the step.
pub proof fn lemma_tick_is_division(updates: int, left: int, total: int, step: int)
    requires
        step > 0,
        0 <= left < step,
        0 <= updates,
        updates * step + left == total,
    ensures
        updates == total / step,
        left == total % step,
{
    vstd::arithmetic::div_mod::lemma_fundamental_div_mod_converse(total, step, updates, left);
}

/// A tick never adds more than the cap to the accumulator, however long the
/// frame took: the updates it runs and what it leaves behind account for the
/// old accumulator plus at most the cap, and exactly the cap once the frame
/// took that long or longer.
pub proof fn lemma_bounded_catch_up(timestep: FixedTimestep, elapsed: int)
    requires
        timestep.wf(),
        timestep.drained(),
        0 <= elapsed,
    ensures
        timestep.updates_due(elapsed) * timestep.step() + timestep.left_over(elapsed)
            == timestep.total_after(elapsed),
        timestep.total_after(elapsed) <= timestep.accumulated() + timestep.cap(),
        elapsed >= timestep.cap() ==> timestep.total_after(elapsed) == timestep.accumulated()
            + timestep.cap(),
        0 <= timestep.left_over(elapsed) < timestep.step(),
        0 <= timestep.updates_due(elapsed) <= (timestep.accumulated() + timestep.cap())
            / timestep.step(),
{
    let total = timestep.total_after(elapsed);
    let step = timestep.step();
    vstd::arithmetic::div_mod::lemma_fundamental_div_mod(total, step);
    vstd::arithmetic::div_mod::lemma_mod_bound(total, step);
    vstd::arithmetic::div_mod::lemma_div_pos_is_pos(total, step);
    vstd::arithmetic::div_mod::lemma_div_is_ordered(
        total,
        timestep.accumulated() + timestep.cap(),
        step,
    );
    assert(step * (total / step) == (total / step) * step) by (nonlinear_arith);
}

/// A frame that took exactly `k` steps, on an empty accumulator and within the
/// cap, runs exactly `k` updates and leaves a blending factor of zero.
pub proof fn lemma_exact_steps(timestep: FixedTimestep, k: int)
    requires
        timestep.wf(),
        timestep.accumulated() == 0,
        0 <= k,
        k * timestep.step() <= timestep.cap(),
    ensures
        timestep.updates_due(k * timestep.step()) == k,
        timestep.left_over(k * timestep.step()) == 0,
{
    let step = timestep.step();
    assert(k * step >= 0) by (nonlinear_arith)
        requires
            k >= 0,
            step > 0,
    ;
    lemma_tick_is_division(k, 0, k * step, step);
}

/// With time already in the accumulator, a frame of exactly `k` steps within
/// the cap still runs exactly `k` updates and leaves the accumulator as it was.
pub proof fn lemma_whole_steps_keep_remainder(timestep: FixedTimestep, k: int)
    requires
        timestep.wf(),
        timestep.drained(),
        0 <= k,
        k * timestep.step() <= timestep.cap(),
    ensures
        timestep.updates_due(k * timestep.step()) == k,
        timestep.left_over(k * timestep.step()) == timestep.accumulated(),
{
    let step = timestep.step();
    assert(k * step >= 0) by (nonlinear_arith)
        requires
            k >= 0,
            step > 0,
    ;
    lemma_tick_is_division(k, timestep.accumulated(), timestep.accumulated() + k * step, step);
}

} // verus!
