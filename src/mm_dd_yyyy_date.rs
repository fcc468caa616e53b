use vstd::prelude::*;
use crate::calendar::{Date, chrono_date, parse_date};
use crate::error::{outcome, CoercionError, Expected};
use crate::text::{trim, trimmed};

verus! {

pub const FORMAT: &'static str = "%m/%d/%Y %H:%M:%S";
pub const OTHER_FORMAT: &'static str = "%m/%d/%Y %H:%M";
pub const DATE_FORMAT: &'static str = "%m/%d/%Y";

/// The value that the text `t` writes, by the first pattern that reads it, as
/// chrono reads it.
pub open spec fn decoded(t: Seq<char>) -> Option<Date> {
    match chrono_date(t, FORMAT@) {
        Some(x) => Some(x),
        None => match chrono_date(t, OTHER_FORMAT@) {
            Some(x) => Some(x),
            None => chrono_date(t, DATE_FORMAT@),
        },
    }
}

/// Reads the date of a month/day/four-digit year stamp, followed or not by a
/// time of day in hours and minutes, with or without seconds, leading and
/// trailing white space aside.
pub fn deserialize(raw: &str) -> (r: Result<Date, CoercionError>)
    ensures
        outcome(r, trimmed(raw@), decoded(trimmed(raw@)), Expected::Date),
{
    let t = trim(raw);
    let s = t.as_str();
    let parsed = match parse_date(s, FORMAT) {
        Some(x) => Some(x),
        None => match parse_date(s, OTHER_FORMAT) {
            Some(x) => Some(x),
            None => parse_date(s, DATE_FORMAT),
        },
    };
    match parsed {
        Some(x) => Ok(x),
        None => Err(CoercionError::new(s, Expected::Date)),
    }
}

} // verus!
