use std::time::{Duration, Instant};
use vstd::prelude::*;

verus! {

/// `std::time::Instant`: a reading of the monotonic clock. Nothing is known of
/// a value but that it can be kept and handed back.
#[verifier::external_type_specification]
#[verifier::external_body]
pub struct ExInstant(std::time::Instant);

/// Calls `Instant::now`. What comes back depends on when the call is made, so
/// nothing is claimed of it.
#[verifier::external_body]
fn now() -> Instant {
    Instant::now()
}

/// Calls `Instant::duration_since`: the time from `earlier` to `later`, or no
/// time where `earlier` is not the earlier one. Nothing is claimed of the
/// result.
#[verifier::external_body]
fn duration_between(later: &Instant, earlier: &Instant) -> Duration {
    later.duration_since(*earlier)
}

/// Calls `Duration::as_millis`: the whole milliseconds in `duration`. Nothing
/// is claimed of the result.
#[verifier::external_body]
fn whole_millis(duration: &Duration) -> u128 {
    duration.as_millis()
}

/// The low 32 bits of a count of milliseconds: the length of a tick as the
/// engine takes it. A count of some 49 days and more wraps round.
pub fn delta_from_millis(millis: u128) -> (delta: u32)
    ensures
        delta == millis % 0x1_0000_0000,
{
    assert(millis & 0xffff_ffff == millis % 0x1_0000_0000) by (bit_vector);
    (millis & 0xffff_ffff) as u32
}

/// Measures the time from one tick to the next.
pub struct Time {
    prev: Instant,
}

impl Time {
    /// Starts measuring now.
    pub fn new() -> Time {
        Time { prev: now() }
    }

    /// The milliseconds since the last call, or since `new` at the first call,
    /// as `delta_from_millis` gives them. The next call measures from this
    /// one.
    pub fn delta_ms(&mut self) -> u32 {
        let now = now();
        let elapsed = duration_between(&now, &self.prev);
        let delta = delta_from_millis(whole_millis(&elapsed));
        self.prev = now;
        delta
    }
}

} // verus!
