use vstd::prelude::*;

verus! {

/// A monotonic clock reading from the standard library.
#[verifier::external_type_specification]
#[verifier::external_body]
pub struct ExInstant(std::time::Instant);

/// Reads the monotonic clock with `std::time::Instant::now`; nothing is promised of the value.
#[verifier::external_body]
pub fn instant_now() -> (t: std::time::Instant) {
    std::time::Instant::now()
}

/// The time elapsed since `start`, in nanoseconds, from `Instant::elapsed`; nothing is promised
/// of the value, which depends on the clock.
#[verifier::external_body]
pub fn elapsed_nanos(start: &std::time::Instant) -> (n: u128) {
    start.elapsed().as_nanos()
}

} // verus!
