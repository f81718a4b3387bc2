//! The proleptic Gregorian calendar, as the timezone library projects it.

use vstd::prelude::*;

verus! {

/// The earliest local time, in seconds since the epoch, whose year fits an `i32`.
pub const MIN_LOCAL_SECONDS: i64 = -67768100567971200;

/// The latest local time, in seconds since the epoch, whose year fits an `i32`.
pub const MAX_LOCAL_SECONDS: i64 = 67767976233532799;

/// Local seconds that the calendar can show.
pub open spec fn in_calendar_range(local_seconds: int) -> bool {
    MIN_LOCAL_SECONDS <= local_seconds <= MAX_LOCAL_SECONDS
}

/// The date of a local time: year, month in `[1, 12]`, day of the month in
/// `[1, 31]` and days since January 1 in `[0, 365]`.
pub uninterp spec fn civil_date_of(local_seconds: int) -> (int, int, int, int);

/// Seconds since local midnight.
pub open spec fn second_of_day(local_seconds: int) -> int {
    local_seconds % 86400
}

/// Days since Sunday in `[0, 6]`; the epoch fell on a Thursday.
pub open spec fn week_day_of(local_seconds: int) -> int {
    (local_seconds / 86400 + 4) % 7
}

/// A local time broken down into calendar fields.
#[derive(Debug, Clone, Copy)]
pub struct CivilTime {
    pub year: i32,
    pub month: u8,
    pub month_day: u8,
    pub hour: u8,
    pub minute: u8,
    pub second: u8,
    pub week_day: u8,
    pub year_day: u16,
}

/// The calendar fields of `local_seconds`.
pub open spec fn is_civil_time_of(c: CivilTime, local_seconds: int) -> bool {
    &&& c.hour == second_of_day(local_seconds) / 3600
    &&& c.minute == (local_seconds % 3600) / 60
    &&& c.second == local_seconds % 60
    &&& c.week_day == week_day_of(local_seconds)
    &&& civil_date_of(local_seconds) == (
        c.year as int,
        c.month as int,
        c.month_day as int,
        c.year_day as int,
    )
    &&& 1 <= c.month <= 12
    &&& 1 <= c.month_day <= 31
    &&& c.year_day <= 365
}

/// Relies on `tz::UtcDateTime::from_timespec` and its getters: the date and time
/// of day of a count of seconds in the proleptic Gregorian calendar, available
/// while the year fits an `i32`.
#[verifier::external_body]
pub(crate) fn project_local(local_seconds: i64) -> (r: Option<CivilTime>)
    ensures
        r is Some <==> in_calendar_range(local_seconds as int),
        r matches Some(c) ==> is_civil_time_of(c, local_seconds as int),
        r matches Some(c) ==> civil_date_of(local_seconds as int) == (
            c.year as int,
            c.month as int,
            c.month_day as int,
            c.year_day as int,
        ),
{
    match tz::UtcDateTime::from_timespec(local_seconds, 0) {
        Ok(d) => Some(
            CivilTime {
                year: d.year(),
                month: d.month(),
                month_day: d.month_day(),
                hour: d.hour(),
                minute: d.minute(),
                second: d.second(),
                week_day: d.week_day(),
                year_day: d.year_day(),
            },
        ),
        Err(_) => None,
    }
}

} // verus!
