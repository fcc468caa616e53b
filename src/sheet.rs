use vstd::prelude::*;
use crate::batch::{batch_of, cells_view, decode_record, outcome_view, record_of, Batch, BatchView, Field, Outcome};
use crate::delimited::TableError;
use crate::excel::{cell_text, Cell, CellView};
use crate::text::texts;

verus! {

pub open spec fn rows_view(rows: Seq<Vec<Cell>>) -> Seq<Seq<CellView>> {
    rows.map_values(|r: Vec<Cell>| cells_view(r@))
}

/// The header of a worksheet: how each cell of its first row reads as text.
pub open spec fn header_texts(row: Seq<CellView>) -> Seq<Seq<char>> {
    row.map_values(|c: CellView| cell_text(c))
}

/// The outcome of each row under the first, read under the first.
pub open spec fn sheet_outcomes(shape: Seq<Field>, rows: Seq<Seq<CellView>>) -> Seq<Outcome> {
    rows.drop_first().map_values(|r: Seq<CellView>| record_of(shape, header_texts(rows[0]), r))
}

pub open spec fn sheet_batch(shape: Seq<Field>, rows: Seq<Seq<CellView>>) -> BatchView {
    batch_of(sheet_outcomes(shape, rows))
}

fn header_of(row: &Vec<Cell>) -> (r: Vec<String>)
    ensures
        texts(r@) == header_texts(cells_view(row@)),
{
    let mut out: Vec<String> = Vec::new();
    let mut i: usize = 0;
    while i < row.len()
        invariant
            i <= row@.len(),
            texts(out@) == header_texts(cells_view(row@.subrange(0, i as int))),
        decreases row@.len() - i,
    {
        let t = match row[i].as_text() {
            Some(t) => t,
            None => String::new(),
        };
        let ghost before = out@;
        out.push(t);
        assert(texts(out@) =~= header_texts(cells_view(row@.subrange(0, i + 1)))) by {
            assert(texts(out@) =~= texts(before).push(cell_text(row@[i as int]@)));
        };
        i = i + 1;
    }
    assert(row@.subrange(0, row@.len() as int) =~= row@);
    out
}

/// Decodes the rows of a worksheet under its first row, which heads the
/// columns; each row is read strictly, and one that fails is left out with
/// a diagnostic that names it.
pub fn from_sheet(shape: &Vec<Field>, rows: &Vec<Vec<Cell>>) -> (r: Result<Batch, TableError>)
    ensures
        rows@.len() == 0 ==> r == Err::<Batch, TableError>(TableError::MissingHeader),
        rows@.len() > 0 ==> r is Ok && r->Ok_0@ == sheet_batch(shape@, rows_view(rows@)),
{
    if rows.len() == 0 {
        return Err(TableError::MissingHeader);
    }
    let ghost all = rows_view(rows@);
    let ghost outs = sheet_outcomes(shape@, all);
    let header = header_of(&rows[0]);
    let mut batch = Batch::new();
    let mut i: usize = 1;
    assert(outs.subrange(0, 0) =~= Seq::<Outcome>::empty());
    while i < rows.len()
        invariant
            all == rows_view(rows@),
            outs == sheet_outcomes(shape@, all),
            outs.len() == rows@.len() - 1,
            1 <= i <= rows@.len(),
            texts(header@) == header_texts(all[0]),
            batch@ == batch_of(outs.subrange(0, i - 1)),
        decreases rows@.len() - i,
    {
        let o = decode_record(shape, &header, &rows[i]);
        assert(outcome_view(o) == outs[i - 1]);
        batch.push_outcome(Ghost(outs.subrange(0, i - 1)), o);
        assert(outs.subrange(0, i - 1).push(outs[i - 1]) =~= outs.subrange(0, i as int));
        i = i + 1;
    }
    assert(outs.subrange(0, outs.len() as int) =~= outs);
    Ok(batch)
}

} // verus!
