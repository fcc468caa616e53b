use vstd::prelude::*;
use crate::calendar::{DateTime, chrono_datetime, parse_datetime};
use crate::error::{outcome, CoercionError, Expected};
use crate::text::{trim, trimmed};

verus! {

pub const FORMAT: &'static str = "%m/%d/%Y %H:%M:%S";
pub const OTHER_FORMAT: &'static str = "%m/%d/%Y %H:%M";

/// The value that the text `t` writes, by the first pattern that reads it, as
/// chrono reads it.
pub open spec fn decoded(t: Seq<char>) -> Option<DateTime> {
    match chrono_datetime(t, FORMAT@) {
        Some(x) => Some(x),
        None => chrono_datetime(t, OTHER_FORMAT@),
    }
}

/// Reads a month/day/four-digit year stamp with hours and minutes, and seconds
/// where they are given, leading and trailing white space aside.
pub fn deserialize(raw: &str) -> (r: Result<DateTime, CoercionError>)
    ensures
        outcome(r, trimmed(raw@), decoded(trimmed(raw@)), Expected::DateTime),
{
    let t = trim(raw);
    let s = t.as_str();
    let parsed = match parse_datetime(s, FORMAT) {
        Some(x) => Some(x),
        None => parse_datetime(s, OTHER_FORMAT),
    };
    match parsed {
        Some(x) => Ok(x),
        None => Err(CoercionError::new(s, Expected::DateTime)),
    }
}

} // verus!
