use vstd::prelude::*;
use crate::calendar::{chrono_ce_date, days_before_month, days_from_ce, is_calendar_date, date_from_ce_days, time_from_seconds, time_of_seconds, Date, DateTime, Time};

pub mod excel_date;
pub mod excel_date_opt;
pub mod excel_datetime;
pub mod excel_datetime_opt;
pub mod excel_time;
pub mod excel_time_opt;

verus! {

/// One cell of a worksheet.
#[derive(Clone, Debug, PartialEq)]
pub enum Cell {
    Empty,
    Text(String),
    /// A number, which is also how dates and times are stored: its whole
    /// days, the rest of it in seconds (rounded to the nearest second), and
    /// how it reads as text.
    Number { days: i32, seconds: u32, text: String },
    /// An integer or a flag, as it reads as text.
    Other(String),
    /// An error value in place of a value.
    Error,
}

/// What a cell holds, with its text as a sequence of characters.
pub enum CellView {
    Empty,
    Text(Seq<char>),
    Number { days: i32, seconds: u32, text: Seq<char> },
    Other(Seq<char>),
    Error,
}

impl View for Cell {
    type V = CellView;

    open spec fn view(&self) -> CellView {
        match self {
            Cell::Empty => CellView::Empty,
            Cell::Text(s) => CellView::Text(s@),
            Cell::Number { days, seconds, text } => CellView::Number { days: *days, seconds: *seconds, text: text@ },
            Cell::Other(s) => CellView::Other(s@),
            Cell::Error => CellView::Error,
        }
    }
}

/// How a cell reads as text; an error cell reads as nothing.
pub open spec fn cell_text(c: CellView) -> Seq<char> {
    match c {
        CellView::Empty => Seq::empty(),
        CellView::Text(s) => s,
        CellView::Number { text, .. } => text,
        CellView::Other(s) => s,
        CellView::Error => Seq::empty(),
    }
}

impl Cell {
    /// How the cell reads as text, or `None` for an error cell.
    pub fn as_text(&self) -> (r: Option<String>)
        ensures
            (self is Error) == (r is None),
            r is Some ==> r->Some_0@ == cell_text(self@),
    {
        match self {
            Cell::Empty => Some(String::new()),
            Cell::Text(s) => Some(s.clone()),
            Cell::Number { text, .. } => Some(text.clone()),
            Cell::Other(s) => Some(s.clone()),
            Cell::Error => None,
        }
    }
}

/// The refusal of a cell, naming how it reads as text.
pub fn refused(cell: &Cell, expected: crate::error::Expected) -> (r: crate::error::CoercionError)
    ensures
        r.raw@ == cell_text(cell@),
        r.expected == expected,
{
    let raw = match cell.as_text() {
        Some(t) => t,
        None => String::new(),
    };
    crate::error::CoercionError { raw, expected }
}

/// Day numbers of spreadsheets count from the last day of 1899, and count
/// 1900 as a leap year, which it was not: day 0 is the day numbered
/// 693594 from 1 January of year 1.
pub const SERIAL_EPOCH_CE_DAYS: i32 = 693594;

/// The day that a spreadsheet's whole day count `days` stands for.
pub open spec fn serial_date(days: i32) -> Option<Date> {
    let n = days + SERIAL_EPOCH_CE_DAYS;
    if n <= i32::MAX {
        chrono_ce_date(n as i32)
    } else {
        None
    }
}

/// The moment that a spreadsheet's whole day count and seconds stand for.
pub open spec fn serial_datetime(days: i32, seconds: u32) -> Option<DateTime> {
    match (serial_date(days), time_of_seconds(seconds as nat)) {
        (Some(d), Some(t)) => Some(DateTime { date: d, time: t }),
        _ => None,
    }
}

pub fn date_of_serial(days: i32) -> (r: Option<Date>)
    ensures
        r == serial_date(days),
        r matches Some(d) ==> is_calendar_date(d) && days_from_ce(d) == days + SERIAL_EPOCH_CE_DAYS,
{
    if days > i32::MAX - SERIAL_EPOCH_CE_DAYS {
        None
    } else {
        date_from_ce_days(days + SERIAL_EPOCH_CE_DAYS)
    }
}

pub fn datetime_of_serial(days: i32, seconds: u32) -> (r: Option<DateTime>)
    ensures
        r == serial_datetime(days, seconds),
{
    match (date_of_serial(days), time_from_seconds(seconds)) {
        (Some(d), Some(t)) => Some(DateTime { date: d, time: t }),
        _ => None,
    }
}

/// A whole day count stands for the day that many days after the day
/// numbered 693594 from 1 January of year 1.
pub proof fn serial_epoch(days: i32)
    requires
        days + 693594 <= i32::MAX,
    ensures
        serial_date(days) == chrono_ce_date((days + 693594) as i32),
{
}

/// Day 0 of a spreadsheet is 30 December 1899: that is the one day of the
/// calendar numbered 693594, the number `date_of_serial` gives the day it
/// returns for day 0.
pub proof fn serial_day_zero(d: Date)
    requires
        is_calendar_date(d),
        days_from_ce(d) == SERIAL_EPOCH_CE_DAYS,
    ensures
        d == (Date { year: 1899, month: 12, day: 30 }),
{
    reveal_with_fuel(days_before_month, 12);
    let p = d.year as int - 1;
    let (a, b, c) = (p / 4, p / 100, p / 400);
    assert(4 * a <= p < 4 * a + 4 && 100 * b <= p < 100 * b + 100 && 400 * c <= p < 400 * c + 400);
    assert(days_before_month(d.year as int, d.month as int) + d.day <= 366);
    assert(days_before_month(d.year as int, d.month as int) + d.day >= 1);
    assert(d.year == 1899);
    assert(days_before_month(1899, d.month as int) + d.day == 364);
}

/// 30 December 1899 is a day of the calendar, numbered 693594.
pub proof fn serial_epoch_day()
    ensures
        is_calendar_date(Date { year: 1899, month: 12, day: 30 }),
        days_from_ce(Date { year: 1899, month: 12, day: 30 }) == SERIAL_EPOCH_CE_DAYS,
{
    reveal_with_fuel(days_before_month, 12);
}

/// Half a day after midnight is twelve o'clock sharp.
pub proof fn serial_noon()
    ensures
        time_of_seconds(43200) == Some(Time { hour: 12, minute: 0, second: 0, nano: 0 }),
{
}

} // verus!
