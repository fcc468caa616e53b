use vstd::prelude::*;
use chrono::{Datelike, Timelike};

verus! {

/// A day of the proleptic Gregorian calendar.
#[derive(Clone, Copy, Debug, PartialEq, Eq, Structural)]
pub struct Date {
    pub year: i32,
    pub month: u32,
    pub day: u32,
}

/// A time of day; `nano` reaches past one second only on a leap second.
#[derive(Clone, Copy, Debug, PartialEq, Eq, Structural)]
pub struct Time {
    pub hour: u32,
    pub minute: u32,
    pub second: u32,
    pub nano: u32,
}

#[derive(Clone, Copy, Debug, PartialEq, Eq, Structural)]
pub struct DateTime {
    pub date: Date,
    pub time: Time,
}

/// What chrono's `NaiveDate::parse_from_str` reads from `text` with the
/// strftime-style `pattern`.
pub uninterp spec fn chrono_date(text: Seq<char>, pattern: Seq<char>) -> Option<Date>;

/// What chrono's `NaiveDateTime::parse_from_str` reads from `text` with
/// the strftime-style `pattern`.
pub uninterp spec fn chrono_datetime(text: Seq<char>, pattern: Seq<char>) -> Option<DateTime>;

/// What chrono's `NaiveTime::parse_from_str` reads from `text` with the
/// strftime-style `pattern`.
pub uninterp spec fn chrono_time(text: Seq<char>, pattern: Seq<char>) -> Option<Time>;

/// The day that chrono's `NaiveDate::from_num_days_from_ce_opt` gives for
/// a day number counted from 1 January of year 1 (day 1).
pub uninterp spec fn chrono_ce_date(days: i32) -> Option<Date>;

/// Relies on chrono's `NaiveDate::parse_from_str`: the date that the text
/// writes in the pattern, or `None` where it writes none.
#[verifier::external_body]
pub(crate) fn parse_date(text: &str, pattern: &str) -> (r: Option<Date>)
    ensures
        r == chrono_date(text@, pattern@),
{
    match chrono::NaiveDate::parse_from_str(text, pattern) {
        Ok(d) => Some(Date { year: d.year(), month: d.month(), day: d.day() }),
        Err(_) => None,
    }
}

/// Relies on chrono's `NaiveDateTime::parse_from_str`: the date and time
/// that the text writes in the pattern, or `None` where it writes none.
#[verifier::external_body]
pub(crate) fn parse_datetime(text: &str, pattern: &str) -> (r: Option<DateTime>)
    ensures
        r == chrono_datetime(text@, pattern@),
{
    match chrono::NaiveDateTime::parse_from_str(text, pattern) {
        Ok(x) => Some(DateTime {
            date: Date { year: x.year(), month: x.month(), day: x.day() },
            time: Time { hour: x.hour(), minute: x.minute(), second: x.second(), nano: x.nanosecond() },
        }),
        Err(_) => None,
    }
}

/// Relies on chrono's `NaiveTime::parse_from_str`: the time of day that
/// the text writes in the pattern, or `None` where it writes none.
#[verifier::external_body]
pub(crate) fn parse_time(text: &str, pattern: &str) -> (r: Option<Time>)
    ensures
        r == chrono_time(text@, pattern@),
{
    match chrono::NaiveTime::parse_from_str(text, pattern) {
        Ok(t) => Some(Time { hour: t.hour(), minute: t.minute(), second: t.second(), nano: t.nanosecond() }),
        Err(_) => None,
    }
}

/// Relies on chrono's `NaiveDate::from_num_days_from_ce_opt`: the day with
/// that number in the proleptic Gregorian calendar, counting 1 January of
/// year 1 as day 1, or `None` where it lies outside chrono's range. Every
/// `NaiveDate` is a real day of the calendar.
#[verifier::external_body]
pub(crate) fn date_from_ce_days(days: i32) -> (r: Option<Date>)
    ensures
        r == chrono_ce_date(days),
        r matches Some(d) ==> is_calendar_date(d) && days_from_ce(d) == days,
{
    match chrono::NaiveDate::from_num_days_from_ce_opt(days) {
        Some(d) => Some(Date { year: d.year(), month: d.month(), day: d.day() }),
        None => None,
    }
}

/// Leap years of the Gregorian calendar, year 0 (1 BCE) among them.
pub open spec fn is_leap_year(y: int) -> bool {
    y % 4 == 0 && (y % 100 != 0 || y % 400 == 0)
}

pub open spec fn days_in_month(y: int, m: int) -> int {
    if m == 2 {
        if is_leap_year(y) { 29 } else { 28 }
    } else if m == 4 || m == 6 || m == 9 || m == 11 {
        30
    } else {
        31
    }
}

/// A month of the year and a day of that month.
pub open spec fn is_calendar_date(d: Date) -> bool {
    1 <= d.month <= 12 && 1 <= d.day <= days_in_month(d.year as int, d.month as int)
}

/// The days of the years before year `y`, counted from 1 January of year 1.
pub open spec fn days_before_year(y: int) -> int {
    let p = y - 1;
    365 * p + p / 4 - p / 100 + p / 400
}

/// The days of the months of year `y` before month `m`.
pub open spec fn days_before_month(y: int, m: int) -> int
    decreases m,
{
    if m <= 1 {
        0
    } else {
        days_before_month(y, m - 1) + days_in_month(y, m - 1)
    }
}

/// The number of a day in the proleptic Gregorian calendar, 1 January of
/// year 1 being day 1.
pub open spec fn days_from_ce(d: Date) -> int {
    days_before_year(d.year as int) + days_before_month(d.year as int, d.month as int) + d.day
}

pub const SECONDS_PER_DAY: u32 = 86400;

/// The time of day `s` seconds after midnight, where `s` is less than a day.
pub open spec fn time_of_seconds(s: nat) -> Option<Time> {
    if s < SECONDS_PER_DAY {
        Some(Time { hour: (s / 3600) as u32, minute: (s % 3600 / 60) as u32, second: (s % 60) as u32, nano: 0 })
    } else {
        None
    }
}

/// The time of day `secs` seconds after midnight, or `None` from one whole
/// day on.
pub fn time_from_seconds(secs: u32) -> (r: Option<Time>)
    ensures
        r == time_of_seconds(secs as nat),
{
    if secs < SECONDS_PER_DAY {
        Some(Time { hour: secs / 3600, minute: secs % 3600 / 60, second: secs % 60, nano: 0 })
    } else {
        None
    }
}

} // verus!
