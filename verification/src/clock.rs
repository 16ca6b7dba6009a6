//! Wall-clock readings around a forward pass.

use vstd::prelude::*;
use std::time::{Duration, Instant};

verus! {

/// A reading of the monotonic clock. Nothing is known of what it holds.
#[verifier::external_type_specification]
#[verifier::external_body]
pub struct ExInstant(std::time::Instant);

/// Reads the monotonic clock through `std::time::Instant::now`. The reading
/// depends on when the call is made, so nothing is claimed of it.
#[verifier::external_body]
pub(crate) fn start_timer() -> Instant {
    Instant::now()
}

/// The time that has passed since a reading, through
/// `std::time::Instant::elapsed`. It depends on when the call is made, so
/// nothing is claimed of it.
#[verifier::external_body]
pub(crate) fn elapsed_since(start: &Instant) -> Duration {
    start.elapsed()
}

/// The whole nanoseconds of a time span, through
/// `std::time::Duration::as_nanos`. Nothing is claimed of the number.
#[verifier::external_body]
pub(crate) fn whole_nanos(span: &Duration) -> u128 {
    span.as_nanos()
}

/// A count of nanoseconds as a latency sample: counts beyond the largest
/// sample are recorded as the largest sample.
pub fn latency_sample(nanos: u128) -> (sample: u64)
    ensures
        nanos <= u64::MAX ==> sample == nanos,
        nanos > u64::MAX ==> sample == u64::MAX,
{
    if nanos > u64::MAX as u128 {
        u64::MAX
    } else {
        nanos as u64
    }
}

} // verus!
