//! The monotonic clock that the sleep timer and the splash screen read.
use vstd::prelude::*;

verus! {

#[verifier::external_type_specification]
#[verifier::external_body]
pub struct ExInstant(std::time::Instant);

/// The largest count of nanoseconds that a `Duration` holds.
pub open spec fn max_duration_nanos() -> int {
    (u64::MAX as int) * 1_000_000_000 + 999_999_999
}

/// Calls `Instant::now` (std). The instant depends on when it is called, so
/// nothing is stated of it.
#[verifier::external_body]
pub fn clock_now() -> std::time::Instant {
    std::time::Instant::now()
}

/// Calls `Instant::elapsed` (std): the time that has passed since `start`.
/// It depends on when it is called, so nothing is stated of it.
#[verifier::external_body]
fn instant_elapsed(start: &std::time::Instant) -> std::time::Duration {
    start.elapsed()
}

/// Calls `Duration::as_nanos` (std): the whole nanoseconds of a duration.
/// Only the bound that every `Duration` obeys is stated.
#[verifier::external_body]
fn duration_as_nanos(d: &std::time::Duration) -> (r: u128)
    ensures
        r <= max_duration_nanos(),
{
    d.as_nanos()
}

/// The whole nanoseconds that have passed since `start` on the monotonic clock.
pub fn nanos_since(start: &std::time::Instant) -> (r: u128)
    ensures
        r <= max_duration_nanos(),
{
    let d = instant_elapsed(start);
    duration_as_nanos(&d)
}

} // verus!
