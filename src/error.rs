use vstd::prelude::*;

verus! {

/// The shape a raw cell was expected to have when a codec rejected it.
#[derive(Clone, Copy, Debug, PartialEq, Eq, Structural)]
pub enum Expected {
    OneOrZero,
    YesOrNo,
    TrueOrFalse,
    Integer,
    KnownId,
    NonEmpty,
    Number,
    Date,
    DateTime,
    Time,
    DateCell,
    DateTimeCell,
    TimeCell,
    /// A cell that holds a value rather than an error.
    Value,
}

/// A codec's refusal of one raw cell: the cell's text and what was expected.
#[derive(Clone, Debug, PartialEq)]
pub struct CoercionError {
    pub raw: String,
    pub expected: Expected,
}

impl CoercionError {
    pub fn new(raw: &str, expected: Expected) -> (r: CoercionError)
        ensures
            r.raw@ == raw@,
            r.expected == expected,
    {
        CoercionError { raw: raw.to_owned(), expected }
    }
}

/// `r` is the outcome that a codec owes for the raw text `raw`: the value
/// `v` where there is one, else an error that names `raw` and `e`.
pub open spec fn outcome<T>(r: Result<T, CoercionError>, raw: Seq<char>, v: Option<T>, e: Expected) -> bool {
    match v {
        Some(x) => r == Ok::<T, CoercionError>(x),
        None => r is Err && r->Err_0.raw@ == raw && r->Err_0.expected == e,
    }
}

} // verus!
