//! Conversion of on-chain second counts into wall-clock timestamps.
//!
//! The store keeps wall-clock values; an on-chain time is an integer count of
//! seconds since the epoch. A count outside the calendar's representable
//! range must not abort processing: the decoder falls back to the epoch
//! itself, so a malformed timestamp yields a zero wall-clock value rather
//! than an error.

use vstd::prelude::*;

verus! {

/// Whether `secs` seconds since the epoch fall inside the range the calendar
/// library can represent.
pub uninterp spec fn timestamp_in_range(secs: i64) -> bool;

/// Relies on `chrono::DateTime::from_timestamp`, which returns `Some` of the
/// datetime at `secs` seconds since the epoch exactly when that lies within
/// the representable range (about 262,000 years around the common era), and
/// on `chrono::DateTime::timestamp`, which returns those seconds back. Every
/// second count up to the year 9999 is far inside the range, and 2^48 seconds
/// are far outside it.
#[verifier::external_body]
fn datetime_from_timestamp(secs: i64) -> (r: Option<i64>)
    ensures
        r == if timestamp_in_range(secs) {
            Some(secs)
        } else {
            None::<i64>
        },
        0 <= secs <= 253402300799 ==> r == Some(secs),
        secs >= 0x1000000000000 ==> r == None::<i64>,
{
    match chrono::DateTime::from_timestamp(secs, 0) {
        Some(dt) => Some(dt.timestamp()),
        None => None,
    }
}

/// The wall-clock value stored for an on-chain time: the seconds themselves
/// when representable, the epoch otherwise.
pub open spec fn normalized_timestamp(secs: i64) -> i64 {
    if timestamp_in_range(secs) {
        secs
    } else {
        0
    }
}

/// Turn an on-chain second count into the stored wall-clock value, falling
/// back to the epoch when the count is out of range.
pub fn normalize_timestamp(secs: i64) -> (r: i64)
    ensures
        r == normalized_timestamp(secs),
        0 <= secs <= 253402300799 ==> r == secs,
        secs >= 0x1000000000000 ==> r == 0,
{
    match datetime_from_timestamp(secs) {
        Some(s) => s,
        None => 0,
    }
}

/// Truncate a ledger logical-time value to the store's signed column type.
pub fn lt_to_i64(lt: u64) -> (r: i64)
    ensures
        r == lt as i64,
{
    #[verifier::truncate] (lt as i64)
}

} // verus!
