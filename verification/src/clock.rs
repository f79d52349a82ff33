//! The injected monotonic clock: an opaque start instant and a reading of
//! the microseconds elapsed since it. Which value a reading returns depends
//! on the wall clock, so the contracts promise nothing of it; everything
//! the statistics guarantee holds for every reading.

use vstd::prelude::*;

verus! {

#[verifier::external_type_specification]
#[verifier::external_body]
pub struct ExInstant(std::time::Instant);

/// Relies on std's `Instant::now`: an opaque reading of the monotonic
/// clock.
#[verifier::external_body]
pub fn now_instant() -> std::time::Instant {
    std::time::Instant::now()
}

/// Relies on std's `Instant::elapsed` and `Duration::as_micros`: the
/// microseconds since `start` was taken.
#[verifier::external_body]
pub fn elapsed_micros_of(start: &std::time::Instant) -> u64 {
    start.elapsed().as_micros() as u64
}

} // verus!
