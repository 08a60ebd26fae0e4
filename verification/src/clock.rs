//! The wall clock, as a count since the Unix epoch.

use vstd::prelude::*;

verus! {

/// Nanoseconds in a second.
pub const NANOS_PER_SECOND: u128 = 1_000_000_000;

/// Whether `nanos` is a time that a whole number of seconds in 64 bits can stand for.
pub open spec fn is_clock_time(nanos: u128) -> bool {
    nanos / NANOS_PER_SECOND <= u64::MAX
}

/// `std::time::SystemTime::elapsed` of the Unix epoch: the nanoseconds since then, or the text of
/// the error where the clock stands before it. A reading differs from call to call; its seconds
/// always fit in 64 bits, as those of every `Duration` do.
#[verifier::external_body]
pub(crate) fn nanos_since_epoch() -> (reading: Result<u128, String>)
    ensures
        reading matches Ok(nanos) ==> is_clock_time(nanos),
{
    match std::time::UNIX_EPOCH.elapsed() {
        Ok(elapsed) => Ok(elapsed.as_nanos()),
        Err(err) => Err(err.to_string()),
    }
}

/// The whole seconds of a clock reading; a clock that stands before the epoch counts as 0.
pub fn seconds_of(reading: &Result<u128, String>) -> (seconds: u64)
    requires
        reading matches Ok(nanos) ==> is_clock_time(*nanos),
    ensures
        seconds == (match reading {
            Ok(nanos) => nanos / NANOS_PER_SECOND,
            Err(_) => 0,
        }),
{
    match reading {
        Ok(nanos) => (*nanos / NANOS_PER_SECOND) as u64,
        Err(_) => 0,
    }
}

/// The current Unix time in whole seconds, 0 where the clock stands before the epoch. What the
/// clock says is left open.
pub fn unix_timestamp() -> (seconds: u64) {
    seconds_of(&nanos_since_epoch())
}

} // verus!
