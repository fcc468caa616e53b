use vstd::prelude::*;
use crate::calendar::{Time, chrono_time, parse_time};
use crate::error::{outcome, CoercionError, Expected};

verus! {

pub const FORMAT: &'static str = "%H%M";

/// The value that the text `t` writes, by as chrono reads it.
pub open spec fn decoded(t: Seq<char>) -> Option<Time> {
    chrono_time(t, FORMAT@)
}

/// Reads a 24-hour time of day written as four digits, hours then minutes.
pub fn deserialize(raw: &str) -> (r: Result<Time, CoercionError>)
    ensures
        outcome(r, raw@, decoded(raw@), Expected::Time),
{
    let s = raw;
    let parsed = parse_time(s, FORMAT);
    match parsed {
        Some(x) => Ok(x),
        None => Err(CoercionError::new(s, Expected::Time)),
    }
}

} // verus!
