//! Wall-clock instants, measured in whole nanoseconds.

use std::time::{Duration, Instant};
use vstd::prelude::*;

verus! {

#[verifier::external_type_specification]
#[verifier::external_body]
pub struct ExInstant(Instant);

/// Reads the monotonic clock through `std::time::Instant::now`. Nothing is
/// claimed of the instant that comes back.
#[verifier::external_body]
fn instant_now() -> (now: Instant) {
    Instant::now()
}

/// Calls `std::time::Instant::duration_since`: the time from `earlier` to
/// `later`, which is zero when `earlier` is the later of the two. Nothing is
/// claimed of the duration that comes back.
#[verifier::external_body]
fn instant_duration_since(later: &Instant, earlier: &Instant) -> (elapsed: Duration) {
    later.duration_since(*earlier)
}

/// Calls `std::time::Duration::as_nanos`: the whole nanoseconds of a
/// duration. Nothing is claimed of the number that comes back.
#[verifier::external_body]
fn duration_as_nanos(duration: &Duration) -> (nanos: u128) {
    duration.as_nanos()
}

/// A point on the monotonic clock.
#[derive(Clone, Copy)]
pub struct Time(Instant);

impl Time {
    /// The current instant.
    pub fn now() -> (now: Time) {
        Time(instant_now())
    }

    /// Nanoseconds elapsed from `other` to `self`; zero if `other` is the
    /// later of the two.
    pub fn sub(&self, other: &Time) -> (nanos: u128) {
        let elapsed = instant_duration_since(&self.0, &other.0);
        duration_as_nanos(&elapsed)
    }
}

} // verus!
