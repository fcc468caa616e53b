use vstd::prelude::*;
use crate::error::CoercionError;
use crate::excel::{cell_text, Cell, CellView};
use crate::record::{cell_field, decode_cell, field_view, Codec, Refusal, Value, ValueView};
use crate::text::{same_text, texts};

verus! {

/// One field of a record: the header of its column and how it is read.
#[derive(Clone, Debug, PartialEq)]
pub struct Field {
    pub name: String,
    pub codec: Codec,
}

impl Field {
    pub fn new(name: &str, codec: Codec) -> (r: Field)
        ensures
            r.name@ == name@,
            r.codec == codec,
    {
        Field { name: name.to_owned(), codec }
    }
}

/// Why a row was left out of a batch.
#[derive(Clone, Debug, PartialEq)]
pub enum RowError {
    /// The reader could not take the row apart.
    Unreadable,
    /// Some of its bytes, or the header's, are not UTF-8.
    NotUtf8,
    /// It has another number of cells than the header.
    UnequalLength { header: usize, row: usize },
    /// No column is headed with this field's name.
    MissingField(String),
    /// A field's codec refused its cell.
    Field { name: String, error: CoercionError },
}

pub enum RowErrorView {
    Unreadable,
    NotUtf8,
    UnequalLength { header: usize, row: usize },
    MissingField(Seq<char>),
    Field { name: Seq<char>, error: Refusal },
}

impl View for RowError {
    type V = RowErrorView;

    open spec fn view(&self) -> RowErrorView {
        match self {
            RowError::Unreadable => RowErrorView::Unreadable,
            RowError::NotUtf8 => RowErrorView::NotUtf8,
            RowError::UnequalLength { header, row } => RowErrorView::UnequalLength { header: *header, row: *row },
            RowError::MissingField(n) => RowErrorView::MissingField(n@),
            RowError::Field { name, error } => RowErrorView::Field { name: name@, error: (error.raw@, error.expected) },
        }
    }
}

/// A row that was left out, by its place among the rows under the header
/// (the first is 0), and why.
#[derive(Clone, Debug, PartialEq)]
pub struct Diagnostic {
    pub row: usize,
    pub error: RowError,
}

/// The records decoded from a source, in the order of their rows, and one
/// diagnostic for each row left out.
#[derive(Clone, Debug, PartialEq)]
pub struct Batch {
    pub records: Vec<Vec<Value>>,
    pub diagnostics: Vec<Diagnostic>,
}

pub type RecordView = Seq<ValueView>;

pub type Outcome = Result<RecordView, RowErrorView>;

pub type BatchView = (Seq<RecordView>, Seq<(usize, RowErrorView)>);

pub open spec fn values_view(v: Seq<Value>) -> RecordView {
    v.map_values(|x: Value| x@)
}

impl View for Batch {
    type V = BatchView;

    open spec fn view(&self) -> BatchView {
        (
            self.records@.map_values(|r: Vec<Value>| values_view(r@)),
            self.diagnostics@.map_values(|d: Diagnostic| (d.row, d.error@)),
        )
    }
}

pub open spec fn outcome_view(r: Result<Vec<Value>, RowError>) -> Outcome {
    match r {
        Ok(v) => Ok(values_view(v@)),
        Err(e) => Err(e@),
    }
}

/// The batch that the outcomes of the rows make: the record of each row
/// that has one, in order, and the place and error of each other row.
pub open spec fn batch_of(outcomes: Seq<Outcome>) -> BatchView
    decreases outcomes.len(),
{
    if outcomes.len() == 0 {
        (Seq::empty(), Seq::empty())
    } else {
        let (records, diagnostics) = batch_of(outcomes.drop_last());
        match outcomes.last() {
            Ok(r) => (records.push(r), diagnostics),
            Err(e) => (records, diagnostics.push(((outcomes.len() - 1) as usize, e))),
        }
    }
}

impl Batch {
    pub fn new() -> (r: Batch)
        ensures
            r@ == batch_of(Seq::empty()),
    {
        let r = Batch { records: Vec::new(), diagnostics: Vec::new() };
        assert(r@.0 =~= Seq::<RecordView>::empty());
        assert(r@.1 =~= Seq::<(usize, RowErrorView)>::empty());
        r
    }

    /// Adds the outcome of the row that follows the rows `prev`: its record,
    /// or a diagnostic that names it.
    pub(crate) fn push_outcome(&mut self, Ghost(prev): Ghost<Seq<Outcome>>, o: Result<Vec<Value>, RowError>)
        requires
            old(self)@ == batch_of(prev),
            prev.len() <= usize::MAX,
        ensures
            final(self)@ == batch_of(prev.push(outcome_view(o))),
    {
        assert(prev.push(outcome_view(o)).drop_last() =~= prev);
        proof {
            lemma_batch_of_len(prev);
        }
        let row = self.records.len() + self.diagnostics.len();
        match o {
            Ok(v) => {
                self.records.push(v);
            },
            Err(e) => {
                self.diagnostics.push(Diagnostic { row, error: e });
            },
        }
        assert(self@.0 =~= batch_of(prev.push(outcome_view(o))).0);
        assert(self@.1 =~= batch_of(prev.push(outcome_view(o))).1);
    }
}

/// Every row gives either a record or a diagnostic.
pub proof fn lemma_batch_of_len(outcomes: Seq<Outcome>)
    ensures
        batch_of(outcomes).0.len() + batch_of(outcomes).1.len() == outcomes.len(),
    decreases outcomes.len(),
{
    if outcomes.len() > 0 {
        lemma_batch_of_len(outcomes.drop_last());
    }
}

/// The first column headed `name`.
pub open spec fn column_of(header: Seq<Seq<char>>, name: Seq<char>) -> Option<int> {
    if exists|k: int| is_first_column(header, name, k) {
        Some(choose|k: int| is_first_column(header, name, k))
    } else {
        None
    }
}

pub open spec fn is_first_column(header: Seq<Seq<char>>, name: Seq<char>, k: int) -> bool {
    &&& 0 <= k < header.len()
    &&& header[k] == name
    &&& forall|j: int| 0 <= j < k ==> header[j] != name
}

/// What one field of a record reads from a row under `header`.
pub open spec fn field_of(f: Field, header: Seq<Seq<char>>, row: Seq<CellView>) -> Result<ValueView, RowErrorView> {
    match column_of(header, f.name@) {
        None => Err(RowErrorView::MissingField(f.name@)),
        Some(k) => match cell_field(&f.codec, row[k]) {
            Ok(v) => Ok(v),
            Err(e) => Err(RowErrorView::Field { name: f.name@, error: e }),
        },
    }
}

/// The fields of `shape` read in order; the first that fails fails them all.
pub open spec fn fields_of(shape: Seq<Field>, header: Seq<Seq<char>>, row: Seq<CellView>) -> Outcome
    decreases shape.len(),
{
    if shape.len() == 0 {
        Ok(Seq::empty())
    } else {
        match fields_of(shape.drop_last(), header, row) {
            Err(e) => Err(e),
            Ok(vs) => match field_of(shape.last(), header, row) {
                Ok(v) => Ok(vs.push(v)),
                Err(e) => Err(e),
            },
        }
    }
}

/// The record that a row under `header` makes: one value per field of
/// `shape`, or the first error.
pub open spec fn record_of(shape: Seq<Field>, header: Seq<Seq<char>>, row: Seq<CellView>) -> Outcome {
    if row.len() != header.len() {
        Err(RowErrorView::UnequalLength { header: header.len() as usize, row: row.len() as usize })
    } else {
        fields_of(shape, header, row)
    }
}

proof fn lemma_fields_of_err(shape: Seq<Field>, header: Seq<Seq<char>>, row: Seq<CellView>, i: int)
    requires
        0 <= i <= shape.len(),
        fields_of(shape.subrange(0, i), header, row) is Err,
    ensures
        fields_of(shape, header, row) == fields_of(shape.subrange(0, i), header, row),
    decreases shape.len(),
{
    if i == shape.len() {
        assert(shape.subrange(0, i) =~= shape);
    } else {
        assert(shape.drop_last().subrange(0, i) =~= shape.subrange(0, i));
        lemma_fields_of_err(shape.drop_last(), header, row, i);
    }
}

/// The first column headed `name`.
pub fn find_column(header: &Vec<String>, name: &String) -> (r: Option<usize>)
    ensures
        r matches Some(k) ==> column_of(texts(header@), name@) == Some(k as int),
        r is None ==> column_of(texts(header@), name@) is None,
{
    let ghost h = texts(header@);
    let mut i: usize = 0;
    while i < header.len()
        invariant
            h == texts(header@),
            i <= header@.len(),
            forall|j: int| 0 <= j < i ==> h[j] != name@,
        decreases header@.len() - i,
    {
        if same_text(header[i].as_str(), name.as_str()) {
            assert(is_first_column(h, name@, i as int));
            proof {
                let k = choose|k: int| is_first_column(h, name@, k);
                assert(k == i) by {
                    if k < i {
                        assert(h[k] != name@);
                    } else if k > i {
                        assert(h[i as int] != name@);
                    }
                };
            }
            return Some(i);
        }
        i = i + 1;
    }
    None
}

pub open spec fn cells_view(row: Seq<Cell>) -> Seq<CellView> {
    row.map_values(|c: Cell| c@)
}

/// Reads a record from a row under `header`: all of its fields, or the
/// error of the first field that fails.
pub fn decode_record(shape: &Vec<Field>, header: &Vec<String>, row: &Vec<Cell>) -> (r: Result<Vec<Value>, RowError>)
    ensures
        outcome_view(r) == record_of(shape@, texts(header@), cells_view(row@)),
{
    let ghost h = texts(header@);
    let ghost cells = cells_view(row@);
    if row.len() != header.len() {
        return Err(RowError::UnequalLength { header: header.len(), row: row.len() });
    }
    let mut values: Vec<Value> = Vec::new();
    let mut i: usize = 0;
    assert(shape@.subrange(0, 0) =~= Seq::<Field>::empty());
    assert(values_view(values@) =~= Seq::<ValueView>::empty());
    while i < shape.len()
        invariant
            h == texts(header@),
            cells == cells_view(row@),
            row@.len() == header@.len(),
            i <= shape@.len(),
            fields_of(shape@.subrange(0, i as int), h, cells) == Ok::<RecordView, RowErrorView>(values_view(values@)),
        decreases shape@.len() - i,
    {
        let f = &shape[i];
        let ghost prefix = shape@.subrange(0, i + 1);
        assert(prefix.drop_last() =~= shape@.subrange(0, i as int));
        assert(prefix.last() == *f);
        match find_column(header, &f.name) {
            None => {
                proof {
                    lemma_fields_of_err(shape@, h, cells, i + 1);
                }
                return Err(RowError::MissingField(f.name.clone()));
            },
            Some(k) => {
                assert(cells[k as int] == row@[k as int]@);
                match decode_cell(&f.codec, &row[k]) {
                    Ok(v) => {
                        let ghost before = values@;
                        values.push(v);
                        assert(values_view(values@) =~= values_view(before).push(v@));
                    },
                    Err(e) => {
                        proof {
                            lemma_fields_of_err(shape@, h, cells, i + 1);
                        }
                        return Err(RowError::Field { name: f.name.clone(), error: e });
                    },
                }
            },
        }
        i = i + 1;
    }
    assert(shape@.subrange(0, shape@.len() as int) =~= shape@);
    Ok(values)
}

/// The record of an outcome that has one.
pub open spec fn record_in(o: Outcome) -> RecordView {
    match o {
        Ok(v) => v,
        Err(_) => Seq::empty(),
    }
}

proof fn lemma_all_ok(outcomes: Seq<Outcome>)
    requires
        forall|j: int| 0 <= j < outcomes.len() ==> (#[trigger] outcomes[j]) is Ok,
    ensures
        batch_of(outcomes).0 == outcomes.map_values(|o: Outcome| record_in(o)),
        batch_of(outcomes).1 == Seq::<(usize, RowErrorView)>::empty(),
    decreases outcomes.len(),
{
    if outcomes.len() > 0 {
        let d = outcomes.drop_last();
        assert forall|j: int| 0 <= j < d.len() implies (#[trigger] d[j]) is Ok by {
            assert(d[j] == outcomes[j]);
        };
        lemma_all_ok(d);
        assert(outcomes.last() is Ok);
        assert(batch_of(outcomes).0 =~= outcomes.map_values(|o: Outcome| record_in(o)));
    } else {
        assert(batch_of(outcomes).0 =~= outcomes.map_values(|o: Outcome| record_in(o)));
    }
}

/// Where one row alone fails, the batch holds the records of all the others
/// in their order, and one diagnostic, which names that row.
pub proof fn lemma_one_failed_row(outcomes: Seq<Outcome>, k: int)
    requires
        0 <= k < outcomes.len() <= usize::MAX,
        outcomes[k] is Err,
        forall|j: int| 0 <= j < outcomes.len() && j != k ==> (#[trigger] outcomes[j]) is Ok,
    ensures
        batch_of(outcomes).0.len() == outcomes.len() - 1,
        forall|j: int| 0 <= j < k ==> batch_of(outcomes).0[j] == record_in(#[trigger] outcomes[j]),
        forall|j: int| k <= j < outcomes.len() - 1 ==> batch_of(outcomes).0[j] == record_in(#[trigger] outcomes[j + 1]),
        batch_of(outcomes).1 == seq![(k as usize, outcomes[k]->Err_0)],
    decreases outcomes.len(),
{
    let d = outcomes.drop_last();
    if k == outcomes.len() - 1 {
        assert forall|j: int| 0 <= j < d.len() implies (#[trigger] d[j]) is Ok by {
            assert(d[j] == outcomes[j]);
        };
        lemma_all_ok(d);
        assert(batch_of(outcomes).1 =~= seq![(k as usize, outcomes[k]->Err_0)]);
        assert forall|j: int| 0 <= j < k implies batch_of(outcomes).0[j] == record_in(#[trigger] outcomes[j]) by {
            assert(d[j] == outcomes[j]);
        };
    } else {
        assert forall|j: int| 0 <= j < d.len() && j != k implies (#[trigger] d[j]) is Ok by {
            assert(d[j] == outcomes[j]);
        };
        lemma_one_failed_row(d, k);
        assert(outcomes.last() is Ok);
        let r = batch_of(outcomes).0;
        assert(r == batch_of(d).0.push(record_in(outcomes.last())));
        assert forall|j: int| 0 <= j < k implies r[j] == record_in(#[trigger] outcomes[j]) by {
            assert(d[j] == outcomes[j]);
        };
        assert forall|j: int| k <= j < outcomes.len() - 1 implies r[j] == record_in(#[trigger] outcomes[j + 1]) by {
            if j < outcomes.len() - 2 {
                assert(d[j + 1] == outcomes[j + 1]);
            }
        };
    }
}

} // verus!
