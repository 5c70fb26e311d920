//! Wall-clock time, for the timestamps that frames and the device state carry.

use vstd::prelude::*;

verus! {

/// Relies on chrono's `Utc::now` and `DateTime::timestamp_millis`: the current
/// time in milliseconds since the Unix epoch. The value comes from the system
/// clock, so nothing is promised of it. (`Utc::now` panics only when the clock
/// reads a time before the epoch.)
#[verifier::external_body]
pub(crate) fn now_millis() -> i64 {
    chrono::Utc::now().timestamp_millis()
}

} // verus!
