//! The calls into `chrono`: the calendar, the clock and the local time.
//!
//! Nothing in this file is proved. Each function here calls `chrono` and
//! states what that call is taken to do; the rest of the library is proved
//! from these statements.

use vstd::prelude::*;

verus! {

/// Whether `year` is a leap year of the Gregorian calendar.
pub open spec fn is_leap_year(year: int) -> bool {
    year % 4 == 0 && (year % 100 != 0 || year % 400 == 0)
}

/// The number of days of a month; 0 where `month` is none.
pub open spec fn days_in_month(year: int, month: int) -> int {
    if month == 2 {
        if is_leap_year(year) {
            29
        } else {
            28
        }
    } else if month == 4 || month == 6 || month == 9 || month == 11 {
        30
    } else if 1 <= month <= 12 {
        31
    } else {
        0
    }
}

/// Whether the six numbers name a second of a day that the calendar has.
/// A minute has the seconds 0 to 59: no leap second is counted.
pub open spec fn on_calendar(
    year: int,
    month: int,
    day: int,
    hour: int,
    minute: int,
    second: int,
) -> bool {
    &&& 1 <= month <= 12
    &&& 1 <= day <= days_in_month(year, month)
    &&& 0 <= hour < 24
    &&& 0 <= minute < 60
    &&& 0 <= second < 60
}

/// The seconds from 1970-01-01T00:00:00Z to the given second of the given
/// day of the proleptic Gregorian calendar, as `chrono` counts them: without
/// leap seconds, and negative before 1970.
pub uninterp spec fn utc_seconds(
    year: int,
    month: int,
    day: int,
    hour: int,
    minute: int,
    second: int,
) -> int;

/// The first second that an instant of `chrono` can hold: the start of the
/// year -262143.
pub const EARLIEST: i64 = -8_334_601_228_800;

/// The last second that an instant of `chrono` can hold: the end of the year
/// 262142.
pub const LATEST: i64 = 8_210_266_876_799;

/// The first second that lies in a year from 0 to 9999 in every time zone:
/// the start of the second day of the year 0.
pub const RFC2822_FIRST: i64 = -62_167_132_800;

/// The last second that lies in a year from 0 to 9999 in every time zone:
/// the end of the last day but one of the year 9999.
pub const RFC2822_LAST: i64 = 253_402_214_399;

/// Calls `chrono::NaiveDate::from_ymd_opt`, then `NaiveDate::and_hms_opt`,
/// and reads the result as UTC with `NaiveDateTime::and_utc` and
/// `DateTime::timestamp`.
///
/// Taken from `chrono`: for a year from 0 to 9999 the two constructors
/// return a value exactly for the days and the times of day that exist, with
/// no leap second; the timestamp depends on the six numbers alone, and it is
/// one that an instant of `chrono` can hold.
#[verifier::external_body]
pub(crate) fn civil_seconds(
    year: i32,
    month: u32,
    day: u32,
    hour: u32,
    minute: u32,
    second: u32,
) -> (seconds: Option<i64>)
    requires
        0 <= year <= 9999,
    ensures
        seconds is Some <==> on_calendar(
            year as int,
            month as int,
            day as int,
            hour as int,
            minute as int,
            second as int,
        ),
        seconds matches Some(t) ==> t == utc_seconds(
            year as int,
            month as int,
            day as int,
            hour as int,
            minute as int,
            second as int,
        ) && EARLIEST <= t <= LATEST,
{
    let date = chrono::NaiveDate::from_ymd_opt(year, month, day)?;
    let time = date.and_hms_opt(hour, minute, second)?;
    Some(time.and_utc().timestamp())
}

/// Calls `chrono::Utc::now` and hands out its whole seconds since 1970
/// (`DateTime::timestamp`) and the nanoseconds of the running second
/// (`DateTime::timestamp_subsec_nanos`).
///
/// Which instant comes back depends on the clock, so no more is stated than
/// holds of every reading. Taken from `chrono`: what it returns is an instant
/// that `chrono` can hold, and the nanoseconds of a reading of the system
/// clock are less than a second.
#[verifier::external_body]
pub(crate) fn utc_now() -> (now: (i64, u32))
    ensures
        EARLIEST <= now.0 <= LATEST,
        now.1 < 1_000_000_000,
{
    let now = chrono::Utc::now();
    (now.timestamp(), now.timestamp_subsec_nanos())
}

/// Calls `chrono::DateTime::from_timestamp`, moves the instant to the time
/// zone of the machine with `DateTime::with_timezone` and `chrono::Local`,
/// and writes it with `DateTime::to_rfc2822`.
///
/// The text depends on the time zone of the machine, so nothing is stated of
/// it. `to_rfc2822` panics on a year outside 0 to 9999; a time zone is less
/// than a day from UTC, which is why a day at each end is left out.
#[verifier::external_body]
pub(crate) fn local_rfc2822(seconds: i64) -> (text: String)
    requires
        RFC2822_FIRST <= seconds <= RFC2822_LAST,
{
    chrono::DateTime::from_timestamp(seconds, 0).unwrap().with_timezone(&chrono::Local).to_rfc2822()
}

} // verus!
