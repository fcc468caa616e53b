use vstd::prelude::*;
use crate::calendar::{Date};
use crate::error::{outcome, CoercionError, Expected};
use crate::excel::{cell_text, Cell, CellView, refused, date_of_serial, serial_date};

verus! {

/// The day that a number cell stands for; any other cell is refused.
pub open spec fn decoded(c: CellView) -> Option<Date> {
    match c {
        CellView::Number { days, .. } => serial_date(days),
        _ => None,
    }
}

/// Reads a day from a number cell.
pub fn deserialize(cell: &Cell) -> (r: Result<Date, CoercionError>)
    ensures
        outcome(r, cell_text(cell@), decoded(cell@), Expected::DateCell),
{
    let parsed = match cell {
        Cell::Number { days, .. } => date_of_serial(*days),
        _ => None,
    };
    match parsed {
        Some(d) => Ok(d),
        None => Err(refused(cell, Expected::DateCell)),
    }
}

} // verus!
