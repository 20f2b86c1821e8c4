//! Units of time, and counting in whole units.

use vstd::prelude::*;

verus! {

/// The seconds of a minute.
pub const MINUTE: u64 = 60;

/// The seconds of an hour.
pub const HOUR: u64 = 3_600;

/// The seconds of a day.
pub const DAY: u64 = 86_400;

/// The nanoseconds of a second.
pub const SECOND_NANOS: i64 = 1_000_000_000;

/// The whole units of `unit` in `n`, counted towards zero: minus twenty-five
/// hours hold minus one whole day.
pub open spec fn whole(n: int, unit: int) -> int {
    if n < 0 {
        -((-n) / unit)
    } else {
        n / unit
    }
}

/// What `whole` leaves over; it has the sign of `n`.
pub open spec fn left_over(n: int, unit: int) -> int {
    n - whole(n, unit) * unit
}

/// The magnitude of an integer.
pub open spec fn magnitude(i: int) -> nat {
    if i < 0 {
        (-i) as nat
    } else {
        i as nat
    }
}

/// The magnitude of `n`.
pub fn magnitude_of(n: i64) -> (m: u64)
    ensures
        m == magnitude(n as int),
{
    if n < 0 {
        (-(n + 1)) as u64 + 1
    } else {
        n as u64
    }
}

/// The whole minutes of `seconds` seconds, counted towards zero.
pub fn whole_minutes(seconds: i64) -> (minutes: i64)
    ensures
        minutes == whole(seconds as int, MINUTE as int),
{
    let size = magnitude_of(seconds) / MINUTE;
    if seconds < 0 {
        -(size as i64)
    } else {
        size as i64
    }
}

/// The whole days of `seconds` seconds, counted towards zero.
pub fn whole_days(seconds: i64) -> (days: i64)
    ensures
        days == whole(seconds as int, DAY as int),
{
    let size = magnitude_of(seconds) / DAY;
    if seconds < 0 {
        -(size as i64)
    } else {
        size as i64
    }
}

} // verus!
