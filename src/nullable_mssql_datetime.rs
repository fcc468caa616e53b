use vstd::prelude::*;
use crate::calendar::{DateTime, chrono_datetime, parse_datetime};

verus! {

pub const FORMAT: &'static str = "%Y-%m-%d %H:%M:%S.%3f";

/// The value that the text `t` writes, by as chrono reads it.
pub open spec fn decoded(t: Seq<char>) -> Option<DateTime> {
    chrono_datetime(t, FORMAT@)
}

/// Reads a database export stamp, year-month-day hour:minute:second with
/// milliseconds; where the text writes none, the value is absent.
pub fn deserialize(raw: &str) -> (r: Option<DateTime>)
    ensures
        r == decoded(raw@),
{
    let s = raw;
    let parsed = parse_datetime(s, FORMAT);
    parsed
}

/// This codec reads what `mssql_datetime` reads, and is absent exactly where
/// `mssql_datetime` refuses the text.
pub proof fn agrees_with_required(t: Seq<char>)
    ensures
        decoded(t) == crate::mssql_datetime::decoded(t),
{
}

} // verus!
