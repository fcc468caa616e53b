use vstd::prelude::*;
use vstd::utf8::*;
use crate::batch::{batch_of, lemma_one_failed_row, record_in, outcome_view, record_of, Batch, BatchView, Field, Outcome, RowError, RowErrorView, decode_record};
use crate::excel::{Cell, CellView};
use crate::text::texts;

verus! {

/// A delimited file taken apart: the cells of its header row, and the cells
/// of each row under it, or `None` for a row that could not be read.
#[derive(Clone, Debug, PartialEq)]
pub struct ByteTable {
    pub header: Vec<Vec<u8>>,
    pub rows: Vec<Option<Vec<Vec<u8>>>>,
}

pub type ByteTableView = (Seq<Seq<u8>>, Seq<Option<Seq<Seq<u8>>>>);

pub open spec fn byte_cells(v: Seq<Vec<u8>>) -> Seq<Seq<u8>> {
    v.map_values(|b: Vec<u8>| b@)
}

pub open spec fn byte_row(r: Option<Vec<Vec<u8>>>) -> Option<Seq<Seq<u8>>> {
    match r {
        Some(v) => Some(byte_cells(v@)),
        None => None,
    }
}

impl View for ByteTable {
    type V = ByteTableView;

    open spec fn view(&self) -> ByteTableView {
        (byte_cells(self.header@), self.rows@.map_values(|r: Option<Vec<Vec<u8>>>| byte_row(r)))
    }
}

/// How the `csv` crate takes apart `bytes` whose cells are separated by
/// `delimiter`, with a header row, rows of any length, and no trimming.
pub uninterp spec fn delimited_table(bytes: Seq<u8>, delimiter: u8) -> Option<ByteTableView>;

/// What `String::from_utf8_lossy` makes of the bytes `b`.
pub uninterp spec fn lossy_utf8(b: Seq<u8>) -> Seq<char>;

/// Relies on the `csv` crate's `Reader`, built with the given delimiter and
/// `flexible(true)`: its header row and its records as bytes, with a record
/// that it could not read as `None`.
#[verifier::external_body]
fn read_delimited(bytes: &Vec<u8>, delimiter: u8) -> (r: Option<ByteTable>)
    ensures
        r matches Some(t) ==> delimited_table(bytes@, delimiter) == Some(t@),
        r is None ==> delimited_table(bytes@, delimiter) is None,
{
    let mut rdr = csv::ReaderBuilder::new().delimiter(delimiter).flexible(true).from_reader(bytes.as_slice());
    let header = rdr.byte_headers().ok()?.iter().map(|f| f.to_vec()).collect();
    let rows = rdr.byte_records().map(|r| r.ok().map(|rec| rec.iter().map(|f| f.to_vec()).collect())).collect();
    Some(ByteTable { header, rows })
}

/// Relies on `std::str::from_utf8`: the text of bytes that are valid UTF-8,
/// and an error for any others.
#[verifier::external_body]
fn utf8_text(b: &Vec<u8>) -> (r: Option<String>)
    ensures
        valid_utf8(b@) == r is Some,
        r matches Some(s) ==> s@ == decode_utf8(b@),
{
    std::str::from_utf8(b.as_slice()).ok().map(|s| s.to_owned())
}

/// Relies on `String::from_utf8_lossy`: the text of the bytes, with U+FFFD
/// in place of each invalid sequence; bytes that are valid UTF-8 read as
/// they are.
#[verifier::external_body]
fn lossy_text(b: &Vec<u8>) -> (r: String)
    ensures
        r@ == lossy_utf8(b@),
        valid_utf8(b@) ==> r@ == decode_utf8(b@),
{
    String::from_utf8_lossy(b.as_slice()).into_owned()
}

/// The texts of the cells, where all of them are valid UTF-8.
pub open spec fn utf8_texts(cells: Seq<Seq<u8>>) -> Option<Seq<Seq<char>>> {
    if forall|i: int| 0 <= i < cells.len() ==> valid_utf8(#[trigger] cells[i]) {
        Some(cells.map_values(|b: Seq<u8>| decode_utf8(b)))
    } else {
        None
    }
}

pub open spec fn lossy_texts(cells: Seq<Seq<u8>>) -> Seq<Seq<char>> {
    cells.map_values(|b: Seq<u8>| lossy_utf8(b))
}

pub open spec fn text_cells(t: Seq<Seq<char>>) -> Seq<CellView> {
    t.map_values(|s: Seq<char>| CellView::Text(s))
}

/// A row read strictly: its bytes and the header's must be UTF-8.
pub open spec fn strict_outcome(shape: Seq<Field>, header: Seq<Seq<u8>>, row: Option<Seq<Seq<u8>>>) -> Outcome {
    match row {
        None => Err(RowErrorView::Unreadable),
        Some(r) => match (utf8_texts(header), utf8_texts(r)) {
            (Some(h), Some(t)) => record_of(shape, h, text_cells(t)),
            _ => Err(RowErrorView::NotUtf8),
        },
    }
}

/// A row read with invalid UTF-8 replaced, in its cells and the header's.
pub open spec fn lossy_outcome(shape: Seq<Field>, header: Seq<Seq<u8>>, row: Option<Seq<Seq<u8>>>) -> Outcome {
    match row {
        None => Err(RowErrorView::Unreadable),
        Some(r) => record_of(shape, lossy_texts(header), text_cells(lossy_texts(r))),
    }
}

/// A row read strictly, and where that fails and `lossy` holds, read again
/// with invalid UTF-8 replaced.
pub open spec fn row_outcome(shape: Seq<Field>, header: Seq<Seq<u8>>, row: Option<Seq<Seq<u8>>>, lossy: bool) -> Outcome {
    match strict_outcome(shape, header, row) {
        Ok(v) => Ok(v),
        Err(e) => if lossy { lossy_outcome(shape, header, row) } else { Err(e) },
    }
}

pub open spec fn table_outcomes(shape: Seq<Field>, t: ByteTableView, lossy: bool) -> Seq<Outcome> {
    t.1.map_values(|r: Option<Seq<Seq<u8>>>| row_outcome(shape, t.0, r, lossy))
}

/// The batch that a table makes.
pub open spec fn table_batch(shape: Seq<Field>, t: ByteTableView, lossy: bool) -> BatchView {
    batch_of(table_outcomes(shape, t, lossy))
}

fn strict_texts(cells: &Vec<Vec<u8>>) -> (r: Option<Vec<String>>)
    ensures
        r matches Some(v) ==> utf8_texts(byte_cells(cells@)) == Some(texts(v@)),
        r is None ==> utf8_texts(byte_cells(cells@)) is None,
{
    let ghost b = byte_cells(cells@);
    let mut out: Vec<String> = Vec::new();
    let mut i: usize = 0;
    while i < cells.len()
        invariant
            b == byte_cells(cells@),
            i <= cells@.len(),
            forall|j: int| 0 <= j < i ==> valid_utf8(#[trigger] b[j]),
            texts(out@) == b.subrange(0, i as int).map_values(|x: Seq<u8>| decode_utf8(x)),
        decreases cells@.len() - i,
    {
        match utf8_text(&cells[i]) {
            Some(s) => {
                let ghost before = out@;
                out.push(s);
                assert(texts(out@) =~= b.subrange(0, i + 1).map_values(|x: Seq<u8>| decode_utf8(x))) by {
                    assert(texts(out@) =~= texts(before).push(s@));
                };
            },
            None => {
                assert(!valid_utf8(b[i as int]));
                return None;
            },
        }
        i = i + 1;
    }
    assert(b.subrange(0, b.len() as int) =~= b);
    Some(out)
}

fn lossy_texts_of(cells: &Vec<Vec<u8>>) -> (r: Vec<String>)
    ensures
        texts(r@) == lossy_texts(byte_cells(cells@)),
{
    let ghost b = byte_cells(cells@);
    let mut out: Vec<String> = Vec::new();
    let mut i: usize = 0;
    while i < cells.len()
        invariant
            b == byte_cells(cells@),
            i <= cells@.len(),
            texts(out@) == lossy_texts(b.subrange(0, i as int)),
        decreases cells@.len() - i,
    {
        let s = lossy_text(&cells[i]);
        let ghost before = out@;
        out.push(s);
        assert(texts(out@) =~= lossy_texts(b.subrange(0, i + 1))) by {
            assert(texts(out@) =~= texts(before).push(s@));
        };
        i = i + 1;
    }
    assert(b.subrange(0, b.len() as int) =~= b);
    out
}

/// Text cells holding the given texts.
pub fn text_cells_of(t: &Vec<String>) -> (r: Vec<Cell>)
    ensures
        crate::batch::cells_view(r@) == text_cells(texts(t@)),
{
    let mut out: Vec<Cell> = Vec::new();
    let mut i: usize = 0;
    while i < t.len()
        invariant
            i <= t@.len(),
            crate::batch::cells_view(out@) == text_cells(texts(t@.subrange(0, i as int))),
        decreases t@.len() - i,
    {
        let ghost before = out@;
        out.push(Cell::Text(t[i].clone()));
        assert(crate::batch::cells_view(out@) =~= text_cells(texts(t@.subrange(0, i + 1)))) by {
            assert(crate::batch::cells_view(out@) =~= crate::batch::cells_view(before).push(CellView::Text(t@[i as int]@)));
        };
        i = i + 1;
    }
    assert(t@.subrange(0, t@.len() as int) =~= t@);
    out
}

/// Reads one row under a header whose texts were taken strictly
/// (`strict_header`, where it is valid UTF-8) and with replacement
/// (`lossy_header`).
fn decode_byte_row(
    shape: &Vec<Field>,
    header: &Vec<Vec<u8>>,
    strict_header: &Option<Vec<String>>,
    lossy_header: &Vec<String>,
    row: &Option<Vec<Vec<u8>>>,
    lossy: bool,
) -> (r: Result<Vec<crate::record::Value>, RowError>)
    requires
        strict_header matches Some(h) ==> utf8_texts(byte_cells(header@)) == Some(texts(h@)),
        strict_header is None ==> utf8_texts(byte_cells(header@)) is None,
        texts(lossy_header@) == lossy_texts(byte_cells(header@)),
    ensures
        outcome_view(r) == row_outcome(shape@, byte_cells(header@), byte_row(*row), lossy),
{
    match row {
        None => Err(RowError::Unreadable),
        Some(cells) => {
            let strict = match strict_header {
                Some(h) => match strict_texts(cells) {
                    Some(t) => decode_record(shape, h, &text_cells_of(&t)),
                    None => Err(RowError::NotUtf8),
                },
                None => Err(RowError::NotUtf8),
            };
            match strict {
                Ok(v) => Ok(v),
                Err(e) => if lossy {
                    let t = lossy_texts_of(cells);
                    decode_record(shape, lossy_header, &text_cells_of(&t))
                } else {
                    Err(e)
                },
            }
        },
    }
}

/// Decodes every row of a table, in order: strictly, and where `lossy`
/// holds, again with invalid UTF-8 replaced where that fails. A row that
/// still fails is left out, with a diagnostic that names it.
pub fn decode_byte_table(shape: &Vec<Field>, table: &ByteTable, lossy: bool) -> (r: Batch)
    ensures
        r@ == table_batch(shape@, table@, lossy),
{
    let ghost outs = table_outcomes(shape@, table@, lossy);
    let strict_header = strict_texts(&table.header);
    let lossy_header = lossy_texts_of(&table.header);
    let mut batch = Batch::new();
    let mut i: usize = 0;
    assert(outs.subrange(0, 0) =~= Seq::<Outcome>::empty());
    while i < table.rows.len()
        invariant
            outs == table_outcomes(shape@, table@, lossy),
            outs.len() == table.rows@.len(),
            i <= table.rows@.len(),
            strict_header matches Some(h) ==> utf8_texts(byte_cells(table.header@)) == Some(texts(h@)),
            strict_header is None ==> utf8_texts(byte_cells(table.header@)) is None,
            texts(lossy_header@) == lossy_texts(byte_cells(table.header@)),
            batch@ == batch_of(outs.subrange(0, i as int)),
        decreases table.rows@.len() - i,
    {
        let o = decode_byte_row(shape, &table.header, &strict_header, &lossy_header, &table.rows[i], lossy);
        assert(outcome_view(o) == outs[i as int]);
        batch.push_outcome(Ghost(outs.subrange(0, i as int)), o);
        assert(outs.subrange(0, i as int).push(outs[i as int]) =~= outs.subrange(0, i + 1));
        i = i + 1;
    }
    assert(outs.subrange(0, outs.len() as int) =~= outs);
    batch
}

pub const COMMA: u8 = 44;

pub const TAB: u8 = 9;

/// Why a whole source could not be decoded.
#[derive(Clone, Copy, Debug, PartialEq, Eq, Structural)]
pub enum TableError {
    /// The header row could not be read.
    UnreadableHeader,
    /// The source has no header row: delimited text whose header row has no
    /// cells (empty input, for one), or a worksheet with no rows.
    MissingHeader,
}

/// Decodes comma-separated bytes that may hold invalid UTF-8: each row is
/// read strictly, and where that fails, again with invalid sequences
/// replaced. Without a header row nothing is decoded.
pub fn from_bytes(shape: &Vec<Field>, bytes: &Vec<u8>) -> (r: Result<Batch, TableError>)
    ensures
        delimited_table(bytes@, COMMA) is None ==> r == Err::<Batch, TableError>(TableError::UnreadableHeader),
        delimited_table(bytes@, COMMA) is Some && delimited_table(bytes@, COMMA)->Some_0.0.len() == 0 ==> r
            == Err::<Batch, TableError>(TableError::MissingHeader),
        delimited_table(bytes@, COMMA) is Some && delimited_table(bytes@, COMMA)->Some_0.0.len() > 0 ==> r is Ok
            && r->Ok_0@ == table_batch(shape@, delimited_table(bytes@, COMMA)->Some_0, true),
{
    match read_delimited(bytes, COMMA) {
        Some(t) => if t.header.len() == 0 {
            Err(TableError::MissingHeader)
        } else {
            Ok(decode_byte_table(shape, &t, true))
        },
        None => Err(TableError::UnreadableHeader),
    }
}

/// Decodes delimited text, each row strictly: a row that is not valid
/// UTF-8 is left out like any other that fails. Without a header row
/// nothing is decoded.
pub fn from_text(shape: &Vec<Field>, bytes: &Vec<u8>, delimiter: u8) -> (r: Result<Batch, TableError>)
    ensures
        delimited_table(bytes@, delimiter) is None ==> r == Err::<Batch, TableError>(TableError::UnreadableHeader),
        delimited_table(bytes@, delimiter) is Some && delimited_table(bytes@, delimiter)->Some_0.0.len() == 0 ==> r
            == Err::<Batch, TableError>(TableError::MissingHeader),
        delimited_table(bytes@, delimiter) is Some && delimited_table(bytes@, delimiter)->Some_0.0.len() > 0 ==> r is Ok
            && r->Ok_0@ == table_batch(shape@, delimited_table(bytes@, delimiter)->Some_0, false),
{
    match read_delimited(bytes, delimiter) {
        Some(t) => if t.header.len() == 0 {
            Err(TableError::MissingHeader)
        } else {
            Ok(decode_byte_table(shape, &t, false))
        },
        None => Err(TableError::UnreadableHeader),
    }
}

/// Where one row of a table fails both strictly and with replacement, and
/// every other row decodes, the batch holds the records of the other rows
/// in their order, and exactly one diagnostic, which names that row.
pub proof fn one_malformed_row(shape: Seq<Field>, t: ByteTableView, k: int)
    requires
        0 <= k < t.1.len() <= usize::MAX,
        row_outcome(shape, t.0, t.1[k], true) is Err,
        forall|j: int| 0 <= j < t.1.len() && j != k ==> (#[trigger] row_outcome(shape, t.0, t.1[j], true)) is Ok,
    ensures
        table_batch(shape, t, true).0.len() == t.1.len() - 1,
        forall|j: int| 0 <= j < k ==> table_batch(shape, t, true).0[j] == record_in(
            #[trigger] row_outcome(shape, t.0, t.1[j], true),
        ),
        forall|j: int| k <= j < t.1.len() - 1 ==> table_batch(shape, t, true).0[j] == record_in(
            #[trigger] row_outcome(shape, t.0, t.1[j + 1], true),
        ),
        table_batch(shape, t, true).1.len() == 1,
        table_batch(shape, t, true).1[0].0 == k,
{
    let outs = table_outcomes(shape, t, true);
    assert forall|j: int| 0 <= j < outs.len() && j != k implies (#[trigger] outs[j]) is Ok by {
        assert(outs[j] == row_outcome(shape, t.0, t.1[j], true));
    };
    lemma_one_failed_row(outs, k);
    assert forall|j: int| k <= j < t.1.len() - 1 implies table_batch(shape, t, true).0[j] == record_in(
        #[trigger] row_outcome(shape, t.0, t.1[j + 1], true),
    ) by {
        assert(outs[j + 1] == row_outcome(shape, t.0, t.1[j + 1], true));
    };
    assert forall|j: int| 0 <= j < k implies table_batch(shape, t, true).0[j] == record_in(
        #[trigger] row_outcome(shape, t.0, t.1[j], true),
    ) by {
        assert(outs[j] == row_outcome(shape, t.0, t.1[j], true));
    };
}

/// Decoding the same bytes with the same fields twice gives the same batch:
/// each time it is the batch that the table of those bytes makes.
pub proof fn decoding_is_repeatable(shape: Seq<Field>, bytes: Seq<u8>, lossy: bool, first: BatchView, second: BatchView)
    requires
        delimited_table(bytes, COMMA) is Some,
        first == table_batch(shape, delimited_table(bytes, COMMA)->Some_0, lossy),
        second == table_batch(shape, delimited_table(bytes, COMMA)->Some_0, lossy),
    ensures
        first == second,
{
}

} // verus!
