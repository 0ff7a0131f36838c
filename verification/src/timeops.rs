//! Calendar components of a microsecond timestamp.
//!
//! A timestamp is a count of non-leap microseconds since the Unix
//! epoch, UTC; counts before the epoch are admitted back to the start
//! of year 1. Each operation extracts one calendar component from it:
//! minute, hour, month, year, day of week, day of month, day of year,
//! or the number of days in the timestamp's month.

use chrono::Datelike;
use chrono::Timelike;
use vstd::prelude::*;

verus! {

/// The first microsecond of year 1, UTC: the lower bound of the
/// timestamps this module accepts.
pub const TS_MIN_MICROS: i64 = -62_135_596_800_000_000;

/// The last microsecond of the year 9999, UTC: the upper bound of the
/// timestamps this module accepts.
pub const TS_MAX_MICROS: i64 = 253_402_300_799_999_999;

/// The year of timestamp `ts`, per the proleptic Gregorian calendar.
pub uninterp spec fn year_of(ts: int) -> u32;

/// The month (one through twelve) of timestamp `ts`.
pub uninterp spec fn month_of(ts: int) -> u32;

/// The day of the month (one through thirty-one) of timestamp `ts`.
pub uninterp spec fn day_of_month_of(ts: int) -> u32;

/// The day of the year (one through three hundred sixty-six) of
/// timestamp `ts`.
pub uninterp spec fn ordinal_of(ts: int) -> u32;

/// Relies on chrono's `Timelike::minute` on the UTC datetime that
/// `DateTime::from_timestamp_micros` builds: the minute of the hour of
/// a non-leap microsecond count since the epoch.
#[verifier::external_body]
fn ts_minute(ts: i64) -> (r: u32)
    requires
        TS_MIN_MICROS <= ts <= TS_MAX_MICROS,
    ensures
        r == (((ts as int) / 1_000_000) / 60) % 60,
{
    chrono::DateTime::from_timestamp_micros(ts).unwrap().minute()
}

/// Relies on chrono's `Timelike::hour`: the hour of the day of a
/// non-leap microsecond count since the epoch.
#[verifier::external_body]
fn ts_hour(ts: i64) -> (r: u32)
    requires
        TS_MIN_MICROS <= ts <= TS_MAX_MICROS,
    ensures
        r == (((ts as int) / 1_000_000) / 3600) % 24,
{
    chrono::DateTime::from_timestamp_micros(ts).unwrap().hour()
}

/// Relies on chrono's `Weekday::num_days_from_sunday`: days since
/// Sunday, zero through six; the epoch day was a Thursday.
#[verifier::external_body]
fn ts_weekday_from_sunday(ts: i64) -> (r: u32)
    requires
        TS_MIN_MICROS <= ts <= TS_MAX_MICROS,
    ensures
        r == (((ts as int) / 86_400_000_000) + 4) % 7,
{
    chrono::DateTime::from_timestamp_micros(ts).unwrap().weekday().num_days_from_sunday()
}

/// Relies on chrono's `Datelike::year`: the calendar year, between 1
/// and 9999 for the timestamps admitted here.
#[verifier::external_body]
fn ts_year(ts: i64) -> (r: u32)
    requires
        TS_MIN_MICROS <= ts <= TS_MAX_MICROS,
    ensures
        r == year_of(ts as int),
        1 <= r <= 9999,
{
    chrono::DateTime::from_timestamp_micros(ts).unwrap().year() as u32
}

/// Relies on chrono's `Datelike::month`: the month number, documented
/// to start from one and end at twelve.
#[verifier::external_body]
fn ts_month(ts: i64) -> (r: u32)
    requires
        TS_MIN_MICROS <= ts <= TS_MAX_MICROS,
    ensures
        r == month_of(ts as int),
        1 <= r <= 12,
{
    chrono::DateTime::from_timestamp_micros(ts).unwrap().month()
}

/// Relies on chrono's `Datelike::day`: the day of the month, documented
/// to start from one and end at thirty-one.
#[verifier::external_body]
fn ts_day_of_month(ts: i64) -> (r: u32)
    requires
        TS_MIN_MICROS <= ts <= TS_MAX_MICROS,
    ensures
        r == day_of_month_of(ts as int),
        1 <= r <= 31,
{
    chrono::DateTime::from_timestamp_micros(ts).unwrap().day()
}

/// Relies on chrono's `Datelike::ordinal`: the day of the year,
/// documented to start from one and end at three hundred sixty-six.
#[verifier::external_body]
fn ts_ordinal(ts: i64) -> (r: u32)
    requires
        TS_MIN_MICROS <= ts <= TS_MAX_MICROS,
    ensures
        r == ordinal_of(ts as int),
        1 <= r <= 366,
{
    chrono::DateTime::from_timestamp_micros(ts).unwrap().ordinal()
}

/// Whether `y` is a leap year of the Gregorian calendar.
pub open spec fn spec_is_leap_year(y: int) -> bool {
    (y % 4 == 0 && y % 100 != 0) || y % 400 == 0
}

/// The number of days in month `m` of year `y`.
pub open spec fn spec_days_in_month(y: int, m: int) -> int
    recommends
        1 <= m <= 12,
{
    if m == 2 {
        if spec_is_leap_year(y) {
            29
        } else {
            28
        }
    } else if m == 4 || m == 6 || m == 9 || m == 11 {
        30
    } else {
        31
    }
}

/// The number of days in the given month of the given year.
pub fn days_in_month(year: u32, month: u32) -> (r: u32)
    requires
        1 <= month <= 12,
    ensures
        r == spec_days_in_month(year as int, month as int),
{
    if month == 2 {
        if (year % 4 == 0 && year % 100 != 0) || year % 400 == 0 {
            29
        } else {
            28
        }
    } else if month == 4 || month == 6 || month == 9 || month == 11 {
        30
    } else {
        31
    }
}

/// A calendar component that can be extracted from a timestamp.
#[derive(Clone, Copy, Debug, PartialEq, Eq, Structural)]
pub enum TimeOperationType {
    Minute,
    Hour,
    DayOfWeek,
    DayOfMonth,
    DayOfYear,
    DaysInMonth,
    Month,
    Year,
}

/// The component `op` extracts from timestamp `ts`.
pub open spec fn spec_component(op: TimeOperationType, ts: i64) -> int {
    match op {
        TimeOperationType::Minute => (((ts as int) / 1_000_000) / 60) % 60,
        TimeOperationType::Hour => (((ts as int) / 1_000_000) / 3600) % 24,
        TimeOperationType::DayOfWeek => (((ts as int) / 86_400_000_000) + 4) % 7,
        TimeOperationType::DayOfMonth => day_of_month_of(ts as int) as int,
        TimeOperationType::DayOfYear => ordinal_of(ts as int) as int,
        TimeOperationType::DaysInMonth => spec_days_in_month(
            year_of(ts as int) as int,
            month_of(ts as int) as int,
        ),
        TimeOperationType::Month => month_of(ts as int) as int,
        TimeOperationType::Year => year_of(ts as int) as int,
    }
}

impl TimeOperationType {
    /// Given a timestamp, extracts this calendar component from it:
    /// the minute, hour, month and so on of the instant it denotes.
    pub fn get_component_from_ts(&self, timestamp: i64) -> (r: u32)
        requires
            TS_MIN_MICROS <= timestamp <= TS_MAX_MICROS,
        ensures
            r as int == spec_component(*self, timestamp),
            *self is DayOfMonth ==> 1 <= r <= 31,
            *self is DayOfYear ==> 1 <= r <= 366,
            *self is Month ==> 1 <= r <= 12,
            *self is Year ==> 1 <= r <= 9999,
    {
        match self {
            TimeOperationType::Minute => ts_minute(timestamp),
            TimeOperationType::Hour => ts_hour(timestamp),
            TimeOperationType::DayOfWeek => ts_weekday_from_sunday(timestamp),
            TimeOperationType::DayOfMonth => ts_day_of_month(timestamp),
            TimeOperationType::DayOfYear => ts_ordinal(timestamp),
            TimeOperationType::DaysInMonth => {
                let y = ts_year(timestamp);
                let m = ts_month(timestamp);
                days_in_month(y, m)
            },
            TimeOperationType::Month => ts_month(timestamp),
            TimeOperationType::Year => ts_year(timestamp),
        }
    }
}

} // verus!
