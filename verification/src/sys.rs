//! The clock and the random numbers that the hunts use.
use vstd::prelude::*;
use rand::Rng;

verus! {

/// The current UTC time in milliseconds since the Unix epoch, as
/// `chrono::Utc::now().timestamp_millis()` gives it. The value is the
/// clock's; it is never negative, since `Utc::now` panics on a system clock
/// that reads before the epoch.
#[verifier::external_body]
pub(crate) fn clock_millis() -> (r: i64)
    ensures
        r >= 0,
{
    chrono::Utc::now().timestamp_millis()
}

/// A number drawn by `rand::rng().random_range(lo..hi)`. rand documents that
/// the result lies in the half-open range and that an empty range panics,
/// which the precondition rules out.
#[verifier::external_body]
pub(crate) fn random_between(lo: u64, hi: u64) -> (r: u64)
    requires
        lo < hi,
    ensures
        lo <= r < hi,
{
    rand::rng().random_range(lo..hi)
}

/// The clock reading, in milliseconds since the Unix epoch.
pub fn now_millis() -> (r: u64) {
    clock_millis() as u64
}

} // verus!
