use vstd::prelude::*;
use crate::calendar::{Time, chrono_time, parse_time, time_from_seconds, time_of_seconds};
use crate::error::{outcome, CoercionError, Expected};
use crate::excel::{cell_text, refused, Cell, CellView};

verus! {

/// The pattern of a 12-hour clock time with seconds and AM or PM.
pub const TIME_FORMAT: &'static str = "%r";

/// A text cell read on a 12-hour clock, or the part of a day that a number
/// cell holds beyond its whole days; any other cell is refused.
pub open spec fn decoded(c: CellView) -> Option<Time> {
    match c {
        CellView::Text(s) => chrono_time(s, TIME_FORMAT@),
        CellView::Number { seconds, .. } => time_of_seconds(seconds as nat),
        _ => None,
    }
}

/// Reads a time of day from a text or a number cell.
pub fn deserialize(cell: &Cell) -> (r: Result<Time, CoercionError>)
    ensures
        outcome(r, cell_text(cell@), decoded(cell@), Expected::TimeCell),
{
    let parsed = match cell {
        Cell::Text(s) => parse_time(s.as_str(), TIME_FORMAT),
        Cell::Number { seconds, .. } => time_from_seconds(*seconds),
        _ => None,
    };
    match parsed {
        Some(t) => Ok(t),
        None => Err(refused(cell, Expected::TimeCell)),
    }
}

} // verus!
