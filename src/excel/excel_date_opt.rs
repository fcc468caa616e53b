use vstd::prelude::*;
use crate::calendar::{Date};
use crate::error::{outcome, CoercionError, Expected};
use crate::excel::{cell_text, Cell, CellView, refused, date_of_serial, serial_date};

verus! {

/// An empty cell, or one of empty text, is absent; a number cell stands
/// for a day; any other cell is refused.
pub open spec fn decoded(c: CellView) -> Option<Option<Date>> {
    match c {
        CellView::Empty => Some(None),
        CellView::Text(s) => if s.len() == 0 { Some(None) } else { None },
        CellView::Number { days, .. } => match serial_date(days) {
            Some(d) => Some(Some(d)),
            None => None,
        },
        _ => None,
    }
}

/// Reads an optional day from a number cell.
pub fn deserialize(cell: &Cell) -> (r: Result<Option<Date>, CoercionError>)
    ensures
        outcome(r, cell_text(cell@), decoded(cell@), Expected::DateCell),
{
    let parsed = match cell {
        Cell::Empty => Some(None),
        Cell::Text(s) => if s.as_str().is_empty() { Some(None) } else { None },
        Cell::Number { days, .. } => match date_of_serial(*days) {
            Some(d) => Some(Some(d)),
            None => None,
        },
        _ => None,
    };
    match parsed {
        Some(d) => Ok(d),
        None => Err(refused(cell, Expected::DateCell)),
    }
}

} // verus!
