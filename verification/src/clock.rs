//! The wall clock: one trusted wrapper, and what a reading of it counts as.
use vstd::prelude::*;

verus! {

/// Reads the clock: `std::time::SystemTime::now()`, turned into a
/// `chrono::DateTime<Utc>` by chrono's `From`, of which `timestamp()` gives
/// the whole seconds since the Unix epoch.
///
/// Nothing is known of the result, and two calls may differ. A clock that
/// stands before the epoch gives a negative reading. chrono's conversion
/// unwraps a date that it could not make, which is the case only for a time
/// more than 262,000 years from the epoch.
#[verifier::external_body]
pub(crate) fn current_timestamp() -> (reading: i64) {
    chrono::DateTime::<chrono::Utc>::from(std::time::SystemTime::now()).timestamp()
}

/// The capture time that a reading of the clock counts as: the reading, and
/// 0 for a reading before the epoch, so that no capture time is negative.
pub open spec fn capture_time(reading: i64) -> i64 {
    if reading < 0 {
        0
    } else {
        reading
    }
}

/// Turns a reading of the clock into a capture time.
pub fn capture_time_of(reading: i64) -> (now: i64)
    ensures
        now == capture_time(reading),
{
    if reading < 0 {
        0
    } else {
        reading
    }
}

/// The current capture time: what the clock gave, taken as `capture_time`
/// says. It is never negative.
pub(crate) fn current_capture_time() -> (now: i64)
    ensures
        now >= 0,
        exists|reading: i64| now == capture_time(reading),
{
    let reading = current_timestamp();
    capture_time_of(reading)
}

} // verus!
