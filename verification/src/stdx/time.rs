//! A calendar date, with or without a time of day.
use chrono::{Datelike, Timelike};
use vstd::prelude::*;

verus! {

/// A date, or a date with a UTC time of day and its Unix timestamp.
#[derive(Debug, Clone, Copy, PartialEq, Eq, Structural)]
pub enum DateOrDateTime {
    /// A date only.
    Date {
        /// The year.
        year: i32,
        /// The month, `1..=12`.
        month: u32,
        /// The day of the month, `1..=31`.
        day: u32,
    },
    /// A date and time in UTC.
    DateTime {
        /// The year.
        year: i32,
        /// The month, `1..=12`.
        month: u32,
        /// The day of the month, `1..=31`.
        day: u32,
        /// The hour, `0..=23`.
        hour: u32,
        /// The minute, `0..=59`.
        minute: u32,
        /// The second, `0..=59`.
        second: u32,
        /// Non-leap seconds since `1970-01-01 00:00:00 UTC`.
        timestamp: i64,
    },
}

impl DateOrDateTime {
    /// The day of the month.
    pub fn day(&self) -> (d: u32)
        ensures
            d == match *self {
                DateOrDateTime::Date { day, .. } => day,
                DateOrDateTime::DateTime { day, .. } => day,
            },
    {
        match *self {
            DateOrDateTime::Date { day, .. } => day,
            DateOrDateTime::DateTime { day, .. } => day,
        }
    }

    /// The month.
    pub fn month(&self) -> (m: u32)
        ensures
            m == match *self {
                DateOrDateTime::Date { month, .. } => month,
                DateOrDateTime::DateTime { month, .. } => month,
            },
    {
        match *self {
            DateOrDateTime::Date { month, .. } => month,
            DateOrDateTime::DateTime { month, .. } => month,
        }
    }

    /// The year.
    pub fn year(&self) -> (y: i32)
        ensures
            y == match *self {
                DateOrDateTime::Date { year, .. } => year,
                DateOrDateTime::DateTime { year, .. } => year,
            },
    {
        match *self {
            DateOrDateTime::Date { year, .. } => year,
            DateOrDateTime::DateTime { year, .. } => year,
        }
    }

    /// The hour, or `None` for a date only.
    pub fn hour(&self) -> (h: Option<u32>)
        ensures
            h == match *self {
                DateOrDateTime::Date { .. } => None,
                DateOrDateTime::DateTime { hour, .. } => Some(hour),
            },
    {
        match *self {
            DateOrDateTime::Date { .. } => None,
            DateOrDateTime::DateTime { hour, .. } => Some(hour),
        }
    }

    /// The minute, or `None` for a date only.
    pub fn minute(&self) -> (m: Option<u32>)
        ensures
            m == match *self {
                DateOrDateTime::Date { .. } => None,
                DateOrDateTime::DateTime { minute, .. } => Some(minute),
            },
    {
        match *self {
            DateOrDateTime::Date { .. } => None,
            DateOrDateTime::DateTime { minute, .. } => Some(minute),
        }
    }

    /// The second, or `None` for a date only.
    pub fn second(&self) -> (s: Option<u32>)
        ensures
            s == match *self {
                DateOrDateTime::Date { .. } => None,
                DateOrDateTime::DateTime { second, .. } => Some(second),
            },
    {
        match *self {
            DateOrDateTime::Date { .. } => None,
            DateOrDateTime::DateTime { second, .. } => Some(second),
        }
    }

    /// The Unix timestamp, or `None` for a date only.
    pub fn timestamp(&self) -> (t: Option<i64>)
        ensures
            t == match *self {
                DateOrDateTime::Date { .. } => None,
                DateOrDateTime::DateTime { timestamp, .. } => Some(timestamp),
            },
    {
        match *self {
            DateOrDateTime::Date { .. } => None,
            DateOrDateTime::DateTime { timestamp, .. } => Some(timestamp),
        }
    }
}

/// The UTC date and time `chrono::DateTime::from_timestamp_millis` makes of `millis`, if
/// any, with its calendar fields (`Datelike`, `Timelike`) and its `timestamp`.
pub uninterp spec fn utc_of_millis(millis: i64) -> Option<DateOrDateTime>;

/// Whether chrono accepts `millis` as a moment it can represent.
pub open spec fn millis_in_range(millis: i64) -> bool {
    utc_of_millis(millis) is Some
}

/// The proleptic Gregorian date `(year, month, day)` that lies `days` days after
/// 1970-01-01 (before it, for a negative count), year 0 standing for 1 BCE. Days are
/// counted in eras of 400 years (146097 days), each year of an era starting on 1 March.
pub open spec fn civil_from_days(days: int) -> (int, int, int) {
    let z = days + 719468;
    let era = z / 146097;
    let doe = z - era * 146097;
    let yoe = (doe - doe / 1460 + doe / 36524 - doe / 146096) / 365;
    let doy = doe - (365 * yoe + yoe / 4 - yoe / 100);
    let mp = (5 * doy + 2) / 153;
    let d = doy - (153 * mp + 2) / 5 + 1;
    let m = if mp < 10 { mp + 3 } else { mp - 9 };
    (yoe + era * 400 + if m <= 2 { 1int } else { 0int }, m, d)
}

/// Calls `chrono::DateTime::from_timestamp_millis` and reads the date and time it gives.
///
/// chrono splits `millis` into whole seconds and the rest by Euclidean division, and the
/// seconds into days and the seconds of the day, again Euclidean; the time of day, the
/// `timestamp` and the calendar date of the day count are stated from that. Which counts
/// chrono can represent is left to the name.
#[verifier::external_body]
pub(crate) fn utc_from_millis(millis: i64) -> (r: Option<DateOrDateTime>)
    ensures
        r == utc_of_millis(millis),
        r matches Some(d) ==> d matches DateOrDateTime::DateTime { year, month, day, hour, minute, second, timestamp } && {
            let secs = millis as int / 1000;
            let of_day = secs % 86400;
            &&& civil_from_days(secs / 86400) == (year as int, month as int, day as int)
            &&& 1 <= month <= 12
            &&& 1 <= day <= 31
            &&& timestamp == secs
            &&& hour == of_day / 3600
            &&& minute == of_day % 3600 / 60
            &&& second == of_day % 60
        },
{
    match chrono::DateTime::from_timestamp_millis(millis) {
        Some(d) => Some(DateOrDateTime::DateTime {
            year: d.year(),
            month: d.month(),
            day: d.day(),
            hour: d.hour(),
            minute: d.minute(),
            second: d.second(),
            timestamp: d.timestamp(),
        }),
        None => None,
    }
}

/// The calendar date `chrono::NaiveDate::parse_from_str` reads from `text` with the format
/// `fmt`, if it reads one.
pub uninterp spec fn date_parsed(text: Seq<char>, fmt: Seq<char>) -> Option<DateOrDateTime>;

/// Calls `chrono::NaiveDate::parse_from_str`; `None` when it reports an error. A date chrono
/// gives is a valid calendar date, so its month and day are in range.
#[verifier::external_body]
pub(crate) fn parse_date(text: &str, fmt: &str) -> (r: Option<DateOrDateTime>)
    ensures
        r == date_parsed(text@, fmt@),
        r matches Some(d) ==> d matches DateOrDateTime::Date { month, day, .. } && 1 <= month <= 12 && 1 <= day <= 31,
{
    match chrono::NaiveDate::parse_from_str(text, fmt) {
        Ok(d) => Some(DateOrDateTime::Date { year: d.year(), month: d.month(), day: d.day() }),
        Err(_) => None,
    }
}

/// The date and time `chrono::NaiveDateTime::parse_from_str` reads from `text` with the
/// format `fmt`, taken as UTC (`and_utc`), if it reads one.
pub uninterp spec fn utc_datetime_parsed(text: Seq<char>, fmt: Seq<char>) -> Option<DateOrDateTime>;

/// Calls `chrono::NaiveDateTime::parse_from_str` and takes the result as UTC; `None` when it
/// reports an error. A date and time chrono gives is a valid one, so its fields are in
/// range; the Unix timestamp of a calendar date is left to the name.
#[verifier::external_body]
pub(crate) fn parse_utc_datetime(text: &str, fmt: &str) -> (r: Option<DateOrDateTime>)
    ensures
        r == utc_datetime_parsed(text@, fmt@),
        r matches Some(d) ==> d matches DateOrDateTime::DateTime { month, day, hour, minute, second, .. }
            && 1 <= month <= 12 && 1 <= day <= 31 && hour < 24 && minute < 60 && second < 60,
{
    match chrono::NaiveDateTime::parse_from_str(text, fmt) {
        Ok(naive) => {
            let d = naive.and_utc();
            Some(DateOrDateTime::DateTime {
                year: d.year(),
                month: d.month(),
                day: d.day(),
                hour: d.hour(),
                minute: d.minute(),
                second: d.second(),
                timestamp: d.timestamp(),
            })
        },
        Err(_) => None,
    }
}

} // verus!
