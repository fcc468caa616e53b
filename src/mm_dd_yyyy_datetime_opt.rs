use vstd::prelude::*;
use crate::calendar::{DateTime, chrono_datetime, parse_datetime};
use crate::text::{trim, trimmed};

verus! {

pub const FORMAT: &'static str = "%m/%d/%Y %H:%M:%S";
pub const OTHER_FORMAT: &'static str = "%m/%d/%Y %H:%M";

/// The value that the text `t` writes, by the first pattern that reads it, as
/// chrono reads it.
pub open spec fn decoded(t: Seq<char>) -> Option<DateTime> {
    match chrono_datetime(t, FORMAT@) {
        Some(x) => Some(x),
        None => chrono_datetime(t, OTHER_FORMAT@),
    }
}

/// Reads a month/day/four-digit year stamp with hours and minutes, and seconds
/// where they are given, leading and trailing white space aside; where the text
/// writes none, the value is absent.
pub fn deserialize(raw: &str) -> (r: Option<DateTime>)
    ensures
        r == decoded(trimmed(raw@)),
{
    let t = trim(raw);
    let s = t.as_str();
    let parsed = match parse_datetime(s, FORMAT) {
        Some(x) => Some(x),
        None => parse_datetime(s, OTHER_FORMAT),
    };
    parsed
}

/// This codec reads what `mm_dd_yyyy_datetime` reads, and is absent exactly
/// where `mm_dd_yyyy_datetime` refuses the text.
pub proof fn agrees_with_required(t: Seq<char>)
    ensures
        decoded(t) == crate::mm_dd_yyyy_datetime::decoded(t),
{
}

} // verus!
