use vstd::prelude::*;
use crate::calendar::{DateTime, chrono_datetime, parse_datetime};
use crate::error::{outcome, CoercionError, Expected};

verus! {

pub const FORMAT: &'static str = "%Y-%m-%d %H:%M:%S";

/// The value that the text `t` writes, by as chrono reads it.
pub open spec fn decoded(t: Seq<char>) -> Option<DateTime> {
    chrono_datetime(t, FORMAT@)
}

/// Reads a year-month-day hour:minute:second stamp.
pub fn deserialize(raw: &str) -> (r: Result<DateTime, CoercionError>)
    ensures
        outcome(r, raw@, decoded(raw@), Expected::DateTime),
{
    let s = raw;
    let parsed = parse_datetime(s, FORMAT);
    match parsed {
        Some(x) => Ok(x),
        None => Err(CoercionError::new(s, Expected::DateTime)),
    }
}

} // verus!
