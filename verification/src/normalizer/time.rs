//! Time: from the ticks of a native timestamp to Unix milliseconds.

use vstd::prelude::*;

verus! {

/// Ticks in a second: a tick is 100 nanoseconds.
pub const WINDOWS_TICK: i64 = 10_000_000;

/// Seconds from 1601-01-01, where native timestamps start, to 1970-01-01.
pub const SEC_TO_UNIX_EPOCH: i64 = 11_644_473_600;

/// Thirty days in milliseconds: how long before its expiration a
/// subscription is taken to have been bought.
pub const SUBSCRIPTION_PERIOD_MILLIS: i64 = 2_592_000_000;

/// The whole seconds in a count of ticks; a part of a second is dropped,
/// towards zero.
pub open spec fn whole_seconds(ticks: int) -> int {
    if ticks >= 0 {
        ticks / 10_000_000
    } else {
        -((-ticks) / 10_000_000)
    }
}

/// The Unix time in milliseconds of a native timestamp, to the second.
pub open spec fn unix_millis(ticks: int) -> int {
    (whole_seconds(ticks) - 11_644_473_600) * 1000
}

/// Converts a native timestamp, in ticks of 100 nanoseconds since
/// 1601-01-01, to milliseconds since 1970-01-01. The result is a whole
/// number of seconds.
pub fn datetime_to_unix_millis(universal_time: i64) -> (r: i64)
    ensures
        r == unix_millis(universal_time as int),
{
    let seconds_since_1601: i64 = universal_time / WINDOWS_TICK;
    let unix_seconds: i64 = seconds_since_1601 - SEC_TO_UNIX_EPOCH;
    unix_seconds * 1000
}

/// The native timestamp of a whole Unix second.
pub open spec fn ticks_of_unix_seconds(seconds: int) -> int {
    (seconds + 11_644_473_600) * 10_000_000
}

/// A whole second survives the conversion: the timestamp of Unix second
/// `seconds` converts to `seconds * 1000` milliseconds.
pub proof fn lemma_whole_seconds_convert_exactly(seconds: int)
    ensures
        unix_millis(ticks_of_unix_seconds(seconds)) == seconds * 1000,
{
    let shifted = seconds + 11_644_473_600;
    if shifted >= 0 {
        assert((shifted * 10_000_000) / 10_000_000 == shifted);
    } else {
        assert(((-shifted) * 10_000_000) / 10_000_000 == -shifted);
        assert(-(shifted * 10_000_000) == (-shifted) * 10_000_000);
    }
}

/// When a purchase is taken to have been made: thirty days before a
/// subscription expires where the expiration is known, else `fallback`.
pub open spec fn estimated_purchase_time(
    subscription: bool,
    expiration_millis: int,
    fallback: int,
) -> int {
    if subscription && expiration_millis > 0 {
        expiration_millis - 2_592_000_000
    } else {
        fallback
    }
}

/// Estimates the time of a purchase of which only the expiration is known.
/// This is a rule of thumb, not a record of the purchase.
pub fn estimate_purchase_time(subscription: bool, expiration_millis: i64, fallback: i64) -> (r:
    i64)
    ensures
        r == estimated_purchase_time(subscription, expiration_millis as int, fallback as int),
{
    if subscription && expiration_millis > 0 {
        expiration_millis - SUBSCRIPTION_PERIOD_MILLIS
    } else {
        fallback
    }
}

} // verus!
