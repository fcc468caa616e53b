use vstd::prelude::*;
use crate::calendar::{DateTime, chrono_datetime, parse_datetime};

verus! {

pub const FORMAT: &'static str = "%m/%d/%Y %I:%M:%S %p";

/// The value that the text `t` writes, by as chrono reads it.
pub open spec fn decoded(t: Seq<char>) -> Option<DateTime> {
    chrono_datetime(t, FORMAT@)
}

/// Reads a month/day/year stamp on a 12-hour clock with AM or PM; where the
/// text writes none, the value is absent.
pub fn deserialize(raw: &str) -> (r: Option<DateTime>)
    ensures
        r == decoded(raw@),
{
    let s = raw;
    let parsed = parse_datetime(s, FORMAT);
    parsed
}

/// This codec reads what `va_datetime` reads, and is absent exactly where
/// `va_datetime` refuses the text.
pub proof fn agrees_with_required(t: Seq<char>)
    ensures
        decoded(t) == crate::va_datetime::decoded(t),
{
}

} // verus!
