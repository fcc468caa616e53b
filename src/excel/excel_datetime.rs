use vstd::prelude::*;
use crate::calendar::{DateTime};
use crate::error::{outcome, CoercionError, Expected};
use crate::excel::{cell_text, Cell, CellView, refused, datetime_of_serial, serial_datetime};

verus! {

/// The moment that a number cell stands for; any other cell is refused.
pub open spec fn decoded(c: CellView) -> Option<DateTime> {
    match c {
        CellView::Number { days, seconds, .. } => serial_datetime(days, seconds),
        _ => None,
    }
}

/// Reads a date and time of day from a number cell.
pub fn deserialize(cell: &Cell) -> (r: Result<DateTime, CoercionError>)
    ensures
        outcome(r, cell_text(cell@), decoded(cell@), Expected::DateTimeCell),
{
    let parsed = match cell {
        Cell::Number { days, seconds, .. } => datetime_of_serial(*days, *seconds),
        _ => None,
    };
    match parsed {
        Some(d) => Ok(d),
        None => Err(refused(cell, Expected::DateTimeCell)),
    }
}

} // verus!
