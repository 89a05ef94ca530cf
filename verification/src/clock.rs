//! Time, as the session counts it: in milliseconds since the Unix epoch. The
//! session does not read a clock; it is told the time with what happens.

use vstd::prelude::*;

verus! {

/// The time that has passed from `since` to `now`, both in milliseconds since
/// the epoch; `None` where `now` is the earlier of the two.
pub open spec fn elapsed_between(since: i64, now: i64) -> Option<u64> {
    if now >= since {
        Some((now - since) as u64)
    } else {
        None
    }
}

/// See [`elapsed_between`].
pub fn elapsed(since: i64, now: i64) -> (r: Option<u64>)
    ensures
        r == elapsed_between(since, now),
{
    if now >= since {
        let wide: i128 = now as i128 - since as i128;
        Some(wide as u64)
    } else {
        None
    }
}

/// The whole minutes and the remaining seconds of a duration in milliseconds,
/// as a call timer shows them.
pub open spec fn minutes_seconds(duration: u64) -> (u64, u64) {
    ((duration / 1000) / 60, (duration / 1000) % 60)
}

/// See [`minutes_seconds`].
pub fn timer_parts(duration: u64) -> (r: (u64, u64))
    ensures
        r == minutes_seconds(duration),
        r.1 < 60,
{
    let seconds: u64 = duration / 1000;
    (seconds / 60, seconds % 60)
}

} // verus!
