use vstd::prelude::*;
use crate::calendar::{Time, chrono_time, parse_time, time_from_seconds, time_of_seconds};
use crate::error::{outcome, CoercionError, Expected};
use crate::excel::excel_time::TIME_FORMAT;
use crate::excel::{cell_text, refused, Cell, CellView};

verus! {

/// An empty cell, or one of empty text, is absent; other text is read on
/// a 12-hour clock; a number cell gives the part of a day beyond its whole
/// days; any other cell is refused.
pub open spec fn decoded(c: CellView) -> Option<Option<Time>> {
    match c {
        CellView::Empty => Some(None),
        CellView::Text(s) => if s.len() == 0 {
            Some(None)
        } else {
            match chrono_time(s, TIME_FORMAT@) {
                Some(t) => Some(Some(t)),
                None => None,
            }
        },
        CellView::Number { seconds, .. } => match time_of_seconds(seconds as nat) {
            Some(t) => Some(Some(t)),
            None => None,
        },
        _ => None,
    }
}

/// Reads an optional time of day from a text or a number cell.
pub fn deserialize(cell: &Cell) -> (r: Result<Option<Time>, CoercionError>)
    ensures
        outcome(r, cell_text(cell@), decoded(cell@), Expected::TimeCell),
{
    let parsed = match cell {
        Cell::Empty => Some(None),
        Cell::Text(s) => if s.as_str().is_empty() {
            Some(None)
        } else {
            match parse_time(s.as_str(), TIME_FORMAT) {
                Some(t) => Some(Some(t)),
                None => None,
            }
        },
        Cell::Number { seconds, .. } => match time_from_seconds(*seconds) {
            Some(t) => Some(Some(t)),
            None => None,
        },
        _ => None,
    };
    match parsed {
        Some(t) => Ok(t),
        None => Err(refused(cell, Expected::TimeCell)),
    }
}

} // verus!
