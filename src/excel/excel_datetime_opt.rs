use vstd::prelude::*;
use crate::calendar::{DateTime};
use crate::error::{outcome, CoercionError, Expected};
use crate::excel::{cell_text, Cell, CellView, refused, datetime_of_serial, serial_datetime};

verus! {

/// An empty cell, or one of empty text, is absent; a number cell stands
/// for a moment; any other cell is refused.
pub open spec fn decoded(c: CellView) -> Option<Option<DateTime>> {
    match c {
        CellView::Empty => Some(None),
        CellView::Text(s) => if s.len() == 0 { Some(None) } else { None },
        CellView::Number { days, seconds, .. } => match serial_datetime(days, seconds) {
            Some(d) => Some(Some(d)),
            None => None,
        },
        _ => None,
    }
}

/// Reads an optional date and time of day from a number cell.
pub fn deserialize(cell: &Cell) -> (r: Result<Option<DateTime>, CoercionError>)
    ensures
        outcome(r, cell_text(cell@), decoded(cell@), Expected::DateTimeCell),
{
    let parsed = match cell {
        Cell::Empty => Some(None),
        Cell::Text(s) => if s.as_str().is_empty() { Some(None) } else { None },
        Cell::Number { days, seconds, .. } => match datetime_of_serial(*days, *seconds) {
            Some(d) => Some(Some(d)),
            None => None,
        },
        _ => None,
    };
    match parsed {
        Some(d) => Ok(d),
        None => Err(refused(cell, Expected::DateTimeCell)),
    }
}

} // verus!
