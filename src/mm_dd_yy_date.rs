use vstd::prelude::*;
use crate::calendar::{Date, chrono_date, parse_date};
use crate::error::{outcome, CoercionError, Expected};
use crate::text::{trim, trimmed};

verus! {

pub const FORMAT: &'static str = "%m/%d/%y";

/// The value that the text `t` writes, by as chrono reads it.
pub open spec fn decoded(t: Seq<char>) -> Option<Date> {
    chrono_date(t, FORMAT@)
}

/// Reads a date written as month/day/two-digit year, leading and trailing white
/// space aside.
pub fn deserialize(raw: &str) -> (r: Result<Date, CoercionError>)
    ensures
        outcome(r, trimmed(raw@), decoded(trimmed(raw@)), Expected::Date),
{
    let t = trim(raw);
    let s = t.as_str();
    let parsed = parse_date(s, FORMAT);
    match parsed {
        Some(x) => Ok(x),
        None => Err(CoercionError::new(s, Expected::Date)),
    }
}

} // verus!
