//! Wall-clock and monotonic-clock access, and durations as plain numbers.
use vstd::prelude::*;

verus! {

#[verifier::external_type_specification]
#[verifier::external_body]
pub struct ExInstant(std::time::Instant);

/// The whole nanoseconds of a duration (`Duration::as_nanos`).
pub uninterp spec fn spec_duration_nanos(d: std::time::Duration) -> nat;

/// `Duration::as_nanos`. Trusted: the result is the duration's whole
/// nanoseconds.
#[verifier::external_body]
pub(crate) fn duration_nanos(d: &std::time::Duration) -> (n: u128)
    ensures
        n == spec_duration_nanos(*d),
{
    d.as_nanos()
}

/// Seconds since the Unix epoch by the system clock
/// (`SystemTime::now().duration_since(UNIX_EPOCH)`, zero when the clock reads
/// before the epoch). Nothing is claimed of the value.
#[verifier::external_body]
pub(crate) fn unix_time_secs() -> u64 {
    std::time::SystemTime::now().duration_since(std::time::UNIX_EPOCH).unwrap_or_default().as_secs()
}

/// The current monotonic instant (`Instant::now`). Nothing is claimed of it.
#[verifier::external_body]
pub(crate) fn instant_now() -> std::time::Instant {
    std::time::Instant::now()
}

/// Time elapsed since `start` by the monotonic clock (`Instant::elapsed`).
/// Nothing is claimed of it: it depends on when it is called.
#[verifier::external_body]
pub(crate) fn instant_elapsed(start: &std::time::Instant) -> std::time::Duration {
    start.elapsed()
}

} // verus!
