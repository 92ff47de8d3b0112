//! The monotonic clock. Its readings are carried and compared by the
//! standard library alone; nothing is claimed of them.
use vstd::prelude::*;

verus! {

/// A reading of the monotonic clock, carried but never looked into.
#[verifier::external_type_specification]
#[verifier::external_body]
pub struct ExInstant(std::time::Instant);

/// `Instant::now`: the clock's reading at the call. Nothing is claimed of it.
#[verifier::external_body]
pub(crate) fn clock_now() -> std::time::Instant {
    std::time::Instant::now()
}

/// `Instant::elapsed`: the time gone by since `start`. Nothing is claimed of it.
#[verifier::external_body]
pub(crate) fn clock_elapsed(start: &std::time::Instant) -> core::time::Duration {
    start.elapsed()
}

/// `Duration::as_millis`: the whole milliseconds of a duration. Nothing is
/// claimed of them.
#[verifier::external_body]
pub(crate) fn duration_millis(duration: &core::time::Duration) -> u128 {
    duration.as_millis()
}

} // verus!
