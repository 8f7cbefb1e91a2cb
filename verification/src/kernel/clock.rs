//! Wall-clock time.

use vstd::prelude::*;

verus! {

/// A reading of the wall clock: whole seconds since 1970 and the
/// nanoseconds since the last whole second.
#[derive(Debug, Clone, Copy, PartialEq, Eq, Structural)]
pub struct Moment {
    pub seconds: i64,
    pub nanos: u32,
}

/// Reads the wall clock.
///
/// Calls `chrono::Utc::now` and takes `DateTime::timestamp` and
/// `DateTime::timestamp_subsec_nanos` of it. The value depends on the
/// machine's clock, so nothing is claimed of it. `Utc::now` itself gives up
/// if the clock is set before 1970.
#[verifier::external_body]
pub(crate) fn now() -> (moment: Moment) {
    let now = chrono::Utc::now();
    Moment { seconds: now.timestamp(), nanos: now.timestamp_subsec_nanos() }
}

/// A clock reading as a time stamp: readings before 1970 count as zero.
pub open spec fn stamp_of(seconds: i64) -> u64 {
    if seconds < 0 {
        0
    } else {
        seconds as u64
    }
}

/// Turns a clock reading into a time stamp.
pub fn to_stamp(seconds: i64) -> (stamp: u64)
    ensures
        stamp == stamp_of(seconds),
{
    if seconds < 0 {
        0
    } else {
        seconds as u64
    }
}

/// Nanoseconds from `start` to `now`.
pub open spec fn nanos_between(start: Moment, now: Moment) -> int {
    (now.seconds - start.seconds) * 1_000_000_000 + (now.nanos - start.nanos)
}

/// The whole seconds in a number of nanoseconds, rounded towards zero.
pub open spec fn whole_seconds(nanos: int) -> int {
    if nanos >= 0 {
        nanos / 1_000_000_000
    } else {
        -((-nanos) / 1_000_000_000)
    }
}

/// Whole seconds from `start` to `now`, as far as an `i64` can hold them.
pub open spec fn elapsed(start: Moment, now: Moment) -> i64 {
    let seconds = whole_seconds(nanos_between(start, now));
    if seconds > i64::MAX {
        i64::MAX
    } else if seconds < i64::MIN {
        i64::MIN
    } else {
        seconds as i64
    }
}

/// Whole seconds from `start` to `now`, rounded towards zero and
/// saturating at the limits of `i64`.
pub fn seconds_between(start: Moment, now: Moment) -> (seconds: i64)
    ensures
        seconds == elapsed(start, now),
{
    let apart: i128 = now.seconds as i128 - start.seconds as i128;
    let nanos: i128 = apart * 1_000_000_000 + (now.nanos as i128 - start.nanos as i128);
    let whole: i128 = if nanos >= 0 {
        nanos / 1_000_000_000
    } else {
        -((-nanos) / 1_000_000_000)
    };
    if whole > i64::MAX as i128 {
        i64::MAX
    } else if whole < i64::MIN as i128 {
        i64::MIN
    } else {
        whole as i64
    }
}

} // verus!
