use vstd::prelude::*;
use crate::calendar::{Date, chrono_date, parse_date};
use crate::text::{trim, trimmed};

verus! {

pub const FORMAT: &'static str = "%m/%d/%Y %H:%M:%S";
pub const OTHER_FORMAT: &'static str = "%m/%d/%Y %H:%M";
pub const DATE_FORMAT: &'static str = "%m/%d/%Y";

/// The value that the text `t` writes, by the first pattern that reads it, as
/// chrono reads it.
pub open spec fn decoded(t: Seq<char>) -> Option<Date> {
    match chrono_date(t, FORMAT@) {
        Some(x) => Some(x),
        None => match chrono_date(t, OTHER_FORMAT@) {
            Some(x) => Some(x),
            None => chrono_date(t, DATE_FORMAT@),
        },
    }
}

/// Reads the date of a month/day/four-digit year stamp, followed or not by a
/// time of day in hours and minutes, with or without seconds, leading and
/// trailing white space aside;
/// where the text writes none, the value is absent.
pub fn deserialize(raw: &str) -> (r: Option<Date>)
    ensures
        r == decoded(trimmed(raw@)),
{
    let t = trim(raw);
    let s = t.as_str();
    let parsed = match parse_date(s, FORMAT) {
        Some(x) => Some(x),
        None => match parse_date(s, OTHER_FORMAT) {
            Some(x) => Some(x),
            None => parse_date(s, DATE_FORMAT),
        },
    };
    parsed
}

/// This codec reads what `mm_dd_yyyy_date` reads, and is absent exactly where
/// `mm_dd_yyyy_date` refuses the text.
pub proof fn agrees_with_required(t: Seq<char>)
    ensures
        decoded(t) == crate::mm_dd_yyyy_date::decoded(t),
{
}

} // verus!
