use vstd::prelude::*;
use crate::calendar::{Date, chrono_datetime, parse_datetime};
use crate::error::{outcome, CoercionError, Expected};

verus! {

pub const FORMAT: &'static str = "%Y-%m-%d %H:%M:%S.%3f";

/// The value that the text `t` writes, by as chrono reads it.
pub open spec fn decoded(t: Seq<char>) -> Option<Date> {
    match chrono_datetime(t, FORMAT@) {
        Some(x) => Some(x.date),
        None => None,
    }
}

/// Reads the date of a database export stamp, year-month-day hour:minute:second
/// with milliseconds.
pub fn deserialize(raw: &str) -> (r: Result<Date, CoercionError>)
    ensures
        outcome(r, raw@, decoded(raw@), Expected::Date),
{
    let s = raw;
    let parsed = match parse_datetime(s, FORMAT) {
        Some(x) => Some(x.date),
        None => None,
    };
    match parsed {
        Some(x) => Ok(x),
        None => Err(CoercionError::new(s, Expected::Date)),
    }
}

} // verus!
