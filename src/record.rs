use vstd::prelude::*;
use crate::calendar::{Date, DateTime, Time};
use crate::comma_separated::pieces;
use crate::currency::amount_of;
use crate::decimal::is_float_literal;
use crate::error::{CoercionError, Expected};
use crate::excel::{cell_text, Cell, CellView};
use crate::line_separated::lines;
use crate::nullable_string::is_null;
use crate::number::i32_of;
use crate::text::{split_on, texts, trimmed};
use crate::variants::Variants;

verus! {

/// How one field of a record is read from its cell.
#[derive(Clone, Debug, PartialEq)]
pub enum Codec {
    /// The text as it is.
    Text,
    /// An `i32` in decimal.
    Integer,
    /// An `i32` in decimal, or nothing where the text writes none.
    NullableInteger,
    /// Nothing for an empty cell, else an `i32` in decimal.
    PossiblyEmptyInteger,
    ZeroOneBool,
    YesNoBool,
    NullableYesNoBool,
    TrueFalseBool,
    NullableTrueFalseBool,
    NonNullBool,
    ZeroOneIntBool,
    NullableBool,
    NullableIntBool,
    NonemptyString,
    NullableString,
    SemiSeparatedList,
    CommaSeparated,
    LineSeparated,
    MmDdYyDate,
    TimelessMmDdYyyyDate,
    MmDdYyyyDate,
    MmDdYyyyDatetime,
    MmDdYyyyDateOpt,
    MmDdYyyyDatetimeOpt,
    YyyyMmDdDatetime,
    NullableYyyyMmDdDatetime,
    HhmmTime,
    VaDatetime,
    VaDatetimeOpt,
    MssqlDate,
    MssqlDatetime,
    NullableMssqlDatetime,
    Currency,
    CurrencyOpt,
    EnumFromId(Variants),
    EnumFromIdOpt(Variants),
    /// Ids that no variant has give the variant `fallback`.
    EnumFromIdOrDefault { variants: Variants, fallback: usize },
    ExcelDate,
    ExcelDateOpt,
    ExcelDatetime,
    ExcelDatetimeOpt,
    ExcelTime,
    ExcelTimeOpt,
}

/// A decoded field. Sums of money are kept as the text of their amount.
#[derive(Clone, Debug, PartialEq)]
pub enum Value {
    Bool(bool),
    OptBool(Option<bool>),
    Integer(i32),
    OptInteger(Option<i32>),
    Text(String),
    OptText(Option<String>),
    List(Vec<String>),
    Date(Date),
    OptDate(Option<Date>),
    DateTime(DateTime),
    OptDateTime(Option<DateTime>),
    Time(Time),
    OptTime(Option<Time>),
    Amount(String),
    OptAmount(Option<String>),
    Variant(usize),
    OptVariant(Option<usize>),
}

pub enum ValueView {
    Bool(bool),
    OptBool(Option<bool>),
    Integer(i32),
    OptInteger(Option<i32>),
    Text(Seq<char>),
    OptText(Option<Seq<char>>),
    List(Seq<Seq<char>>),
    Date(Date),
    OptDate(Option<Date>),
    DateTime(DateTime),
    OptDateTime(Option<DateTime>),
    Time(Time),
    OptTime(Option<Time>),
    Amount(Seq<char>),
    OptAmount(Option<Seq<char>>),
    Variant(usize),
    OptVariant(Option<usize>),
}

pub open spec fn opt_text(o: Option<String>) -> Option<Seq<char>> {
    match o {
        Some(s) => Some(s@),
        None => None,
    }
}

impl View for Value {
    type V = ValueView;

    open spec fn view(&self) -> ValueView {
        match self {
            Value::Bool(b) => ValueView::Bool(*b),
            Value::OptBool(b) => ValueView::OptBool(*b),
            Value::Integer(i) => ValueView::Integer(*i),
            Value::OptInteger(i) => ValueView::OptInteger(*i),
            Value::Text(s) => ValueView::Text(s@),
            Value::OptText(s) => ValueView::OptText(opt_text(*s)),
            Value::List(v) => ValueView::List(texts(v@)),
            Value::Date(d) => ValueView::Date(*d),
            Value::OptDate(d) => ValueView::OptDate(*d),
            Value::DateTime(d) => ValueView::DateTime(*d),
            Value::OptDateTime(d) => ValueView::OptDateTime(*d),
            Value::Time(t) => ValueView::Time(*t),
            Value::OptTime(t) => ValueView::OptTime(*t),
            Value::Amount(s) => ValueView::Amount(s@),
            Value::OptAmount(s) => ValueView::OptAmount(opt_text(*s)),
            Value::Variant(k) => ValueView::Variant(*k),
            Value::OptVariant(k) => ValueView::OptVariant(*k),
        }
    }
}

/// A refusal as the text it names and what was expected.
pub type Refusal = (Seq<char>, Expected);

pub open spec fn refusal_of(e: CoercionError) -> Refusal {
    (e.raw@, e.expected)
}

/// The outcome of a codec, seen through the views of its value and error.
pub open spec fn field_view(r: Result<Value, CoercionError>) -> Result<ValueView, Refusal> {
    match r {
        Ok(v) => Ok(v@),
        Err(e) => Err(refusal_of(e)),
    }
}

/// The value `f(x)` where a codec read `x`, else a refusal of `raw`.
pub open spec fn given<T>(
    v: Option<T>,
    f: spec_fn(T) -> ValueView,
    raw: Seq<char>,
    e: Expected,
) -> Result<ValueView, Refusal> {
    match v {
        Some(x) => Ok(f(x)),
        None => Err((raw, e)),
    }
}

/// What a codec reads from a spreadsheet cell.
pub open spec fn cell_field(codec: &Codec, c: CellView) -> Result<ValueView, Refusal> {
    let raw = cell_text(c);
    match codec {
        Codec::ExcelDate => given(
            crate::excel::excel_date::decoded(c),
            |d| ValueView::Date(d),
            raw,
            Expected::DateCell,
        ),
        Codec::ExcelDateOpt => given(
            crate::excel::excel_date_opt::decoded(c),
            |d| ValueView::OptDate(d),
            raw,
            Expected::DateCell,
        ),
        Codec::ExcelDatetime => given(
            crate::excel::excel_datetime::decoded(c),
            |d| ValueView::DateTime(d),
            raw,
            Expected::DateTimeCell,
        ),
        Codec::ExcelDatetimeOpt => given(
            crate::excel::excel_datetime_opt::decoded(c),
            |d| ValueView::OptDateTime(d),
            raw,
            Expected::DateTimeCell,
        ),
        Codec::ExcelTime => given(
            crate::excel::excel_time::decoded(c),
            |t| ValueView::Time(t),
            raw,
            Expected::TimeCell,
        ),
        Codec::ExcelTimeOpt => given(
            crate::excel::excel_time_opt::decoded(c),
            |t| ValueView::OptTime(t),
            raw,
            Expected::TimeCell,
        ),
        _ => match c {
            CellView::Error => Err((raw, Expected::Value)),
            _ => text_field(codec, raw),
        },
    }
}

/// What a codec that reads text reads from the text `t`.
pub open spec fn text_field(codec: &Codec, t: Seq<char>) -> Result<ValueView, Refusal> {
    match codec {
        Codec::Text => Ok(ValueView::Text(t)),
        Codec::Integer => given(i32_of(t), |i| ValueView::Integer(i), t, Expected::Integer),
        Codec::NullableInteger => Ok(ValueView::OptInteger(i32_of(t))),
        Codec::PossiblyEmptyInteger => if t.len() == 0 {
            Ok(ValueView::OptInteger(None))
        } else {
            given(i32_of(t), |i| ValueView::OptInteger(Some(i)), t, Expected::Integer)
        },
        Codec::ZeroOneBool => given(
            crate::zero_one_bool::decoded(t),
            |b| ValueView::Bool(b),
            t,
            Expected::OneOrZero,
        ),
        Codec::YesNoBool => given(
            crate::yes_no_bool::decoded(t),
            |b| ValueView::Bool(b),
            t,
            Expected::YesOrNo,
        ),
        Codec::NullableYesNoBool => given(
            crate::nullable_yes_no_bool::decoded(t),
            |b| ValueView::OptBool(b),
            t,
            Expected::YesOrNo,
        ),
        Codec::TrueFalseBool => given(
            crate::true_false_bool::decoded(t),
            |b| ValueView::Bool(b),
            t,
            Expected::TrueOrFalse,
        ),
        Codec::NullableTrueFalseBool => given(
            crate::nullable_true_false_bool::decoded(t),
            |b| ValueView::OptBool(b),
            t,
            Expected::TrueOrFalse,
        ),
        Codec::NonNullBool => Ok(ValueView::Bool(crate::non_null_bool::decoded(t))),
        Codec::ZeroOneIntBool => given(
            crate::zero_one_int_bool::decoded(t),
            |b| ValueView::Bool(b),
            t,
            crate::zero_one_int_bool::refusal(t),
        ),
        Codec::NullableBool => Ok(ValueView::OptBool(crate::nullable_bool::decoded(t))),
        Codec::NullableIntBool => Ok(ValueView::OptBool(crate::nullable_int_bool::decoded(t))),
        Codec::NonemptyString => if t.len() == 0 { Err((t, Expected::NonEmpty)) } else { Ok(ValueView::Text(t)) },
        Codec::NullableString => Ok(ValueView::OptText(if is_null(t) { None } else { Some(t) })),
        Codec::SemiSeparatedList => Ok(ValueView::List(split_on(t, ';'))),
        Codec::CommaSeparated => Ok(ValueView::List(pieces(t))),
        Codec::LineSeparated => Ok(ValueView::List(lines(t))),
        Codec::MmDdYyDate => given(
            crate::mm_dd_yy_date::decoded(trimmed(t)),
            |d| ValueView::Date(d),
            trimmed(t),
            Expected::Date,
        ),
        Codec::TimelessMmDdYyyyDate => given(
            crate::timeless_mm_dd_yyyy_date::decoded(trimmed(t)),
            |d| ValueView::Date(d),
            trimmed(t),
            Expected::Date,
        ),
        Codec::MmDdYyyyDate => given(
            crate::mm_dd_yyyy_date::decoded(trimmed(t)),
            |d| ValueView::Date(d),
            trimmed(t),
            Expected::Date,
        ),
        Codec::MmDdYyyyDatetime => given(
            crate::mm_dd_yyyy_datetime::decoded(trimmed(t)),
            |d| ValueView::DateTime(d),
            trimmed(t),
            Expected::DateTime,
        ),
        Codec::MmDdYyyyDateOpt => Ok(ValueView::OptDate(crate::mm_dd_yyyy_date_opt::decoded(trimmed(t)))),
        Codec::MmDdYyyyDatetimeOpt => Ok(ValueView::OptDateTime(crate::mm_dd_yyyy_datetime_opt::decoded(trimmed(t)))),
        Codec::YyyyMmDdDatetime => given(
            crate::yyyy_mm_dd_datetime::decoded(t),
            |d| ValueView::DateTime(d),
            t,
            Expected::DateTime,
        ),
        Codec::NullableYyyyMmDdDatetime => Ok(ValueView::OptDateTime(crate::nullable_yyyy_mm_dd_datetime::decoded(t))),
        Codec::HhmmTime => given(
            crate::hhmm_time::decoded(t),
            |x| ValueView::Time(x),
            t,
            Expected::Time,
        ),
        Codec::VaDatetime => given(
            crate::va_datetime::decoded(t),
            |d| ValueView::DateTime(d),
            t,
            Expected::DateTime,
        ),
        Codec::VaDatetimeOpt => Ok(ValueView::OptDateTime(crate::va_datetime_opt::decoded(t))),
        Codec::MssqlDate => given(
            crate::mssql_date::decoded(t),
            |d| ValueView::Date(d),
            t,
            Expected::Date,
        ),
        Codec::MssqlDatetime => given(
            crate::mssql_datetime::decoded(t),
            |d| ValueView::DateTime(d),
            t,
            Expected::DateTime,
        ),
        Codec::NullableMssqlDatetime => Ok(ValueView::OptDateTime(crate::nullable_mssql_datetime::decoded(t))),
        Codec::Currency => if is_float_literal(amount_of(t)) {
            Ok(ValueView::Amount(amount_of(t)))
        } else {
            Err((amount_of(t), Expected::Number))
        },
        Codec::CurrencyOpt => if t.len() == 0 {
            Ok(ValueView::OptAmount(None))
        } else if is_float_literal(amount_of(t)) {
            Ok(ValueView::OptAmount(Some(amount_of(t))))
        } else {
            Err((amount_of(t), Expected::Number))
        },
        Codec::EnumFromId(vs) => given(
            crate::enum_from_id::decoded(t, vs.ids@),
            |k: int| ValueView::Variant(k as usize),
            t,
            crate::enum_from_id::refusal(t),
        ),
        Codec::EnumFromIdOpt(vs) => Ok(ValueView::OptVariant(match crate::enum_from_id::decoded(t, vs.ids@) {
            Some(k) => Some(k as usize),
            None => None,
        })),
        Codec::EnumFromIdOrDefault { variants, fallback } => if i32_of(t) is None {
            Err((t, Expected::Integer))
        } else {
            Ok(ValueView::Variant(match crate::enum_from_id::decoded(t, variants.ids@) {
                Some(k) => k as usize,
                None => *fallback,
            }))
        },
        _ => Err((t, Expected::Value)),
    }
}


fn integer(t: &str) -> (r: Result<i32, CoercionError>)
    ensures
        i32_of(t@) matches Some(i) ==> r == Ok::<i32, CoercionError>(i),
        i32_of(t@) is None ==> r is Err && refusal_of(r->Err_0) == (t@, Expected::Integer),
{
    match crate::number::parse_i32(t) {
        Some(i) => Ok(i),
        None => Err(CoercionError::new(t, Expected::Integer)),
    }
}

/// Reads one field from the text of its cell.
#[verifier::rlimit(40)]
pub fn decode_text(codec: &Codec, t: &str) -> (r: Result<Value, CoercionError>)
    ensures
        field_view(r) == text_field(codec, t@),
{
    match codec {
        Codec::Integer => match integer(t) {
            Ok(i) => Ok(Value::Integer(i)),
            Err(e) => Err(e),
        },
        Codec::Text => Ok(Value::Text(t.to_owned())),
        Codec::NullableInteger => Ok(Value::OptInteger(crate::number::parse_i32(t))),
        Codec::NonNullBool => Ok(Value::Bool(crate::non_null_bool::deserialize(t))),
        Codec::NullableBool => Ok(Value::OptBool(crate::nullable_bool::deserialize(t))),
        Codec::NullableIntBool => Ok(Value::OptBool(crate::nullable_int_bool::deserialize(t))),
        Codec::NullableString => Ok(Value::OptText(crate::nullable_string::deserialize(t))),
        Codec::SemiSeparatedList => Ok(Value::List(crate::semi_separated_list::deserialize(t))),
        Codec::CommaSeparated => Ok(Value::List(crate::comma_separated::deserialize(t))),
        Codec::LineSeparated => Ok(Value::List(crate::line_separated::deserialize(t))),
        Codec::MmDdYyyyDateOpt => Ok(Value::OptDate(crate::mm_dd_yyyy_date_opt::deserialize(t))),
        Codec::MmDdYyyyDatetimeOpt => Ok(Value::OptDateTime(crate::mm_dd_yyyy_datetime_opt::deserialize(t))),
        Codec::NullableYyyyMmDdDatetime => Ok(Value::OptDateTime(crate::nullable_yyyy_mm_dd_datetime::deserialize(t))),
        Codec::VaDatetimeOpt => Ok(Value::OptDateTime(crate::va_datetime_opt::deserialize(t))),
        Codec::NullableMssqlDatetime => Ok(Value::OptDateTime(crate::nullable_mssql_datetime::deserialize(t))),
        Codec::EnumFromIdOpt(vs) => Ok(Value::OptVariant(crate::enum_from_id_opt::deserialize(t, vs))),
        Codec::ZeroOneBool => match crate::zero_one_bool::deserialize(t) {
            Ok(x) => Ok(Value::Bool(x)),
            Err(e) => Err(e),
        },
        Codec::YesNoBool => match crate::yes_no_bool::deserialize(t) {
            Ok(x) => Ok(Value::Bool(x)),
            Err(e) => Err(e),
        },
        Codec::NullableYesNoBool => match crate::nullable_yes_no_bool::deserialize(t) {
            Ok(x) => Ok(Value::OptBool(x)),
            Err(e) => Err(e),
        },
        Codec::TrueFalseBool => match crate::true_false_bool::deserialize(t) {
            Ok(x) => Ok(Value::Bool(x)),
            Err(e) => Err(e),
        },
        Codec::NullableTrueFalseBool => match crate::nullable_true_false_bool::deserialize(t) {
            Ok(x) => Ok(Value::OptBool(x)),
            Err(e) => Err(e),
        },
        Codec::ZeroOneIntBool => match crate::zero_one_int_bool::deserialize(t) {
            Ok(x) => Ok(Value::Bool(x)),
            Err(e) => Err(e),
        },
        Codec::NonemptyString => match crate::nonempty_string::deserialize(t) {
            Ok(x) => Ok(Value::Text(x)),
            Err(e) => Err(e),
        },
        Codec::MmDdYyDate => match crate::mm_dd_yy_date::deserialize(t) {
            Ok(x) => Ok(Value::Date(x)),
            Err(e) => Err(e),
        },
        Codec::TimelessMmDdYyyyDate => match crate::timeless_mm_dd_yyyy_date::deserialize(t) {
            Ok(x) => Ok(Value::Date(x)),
            Err(e) => Err(e),
        },
        Codec::MmDdYyyyDate => match crate::mm_dd_yyyy_date::deserialize(t) {
            Ok(x) => Ok(Value::Date(x)),
            Err(e) => Err(e),
        },
        Codec::MmDdYyyyDatetime => match crate::mm_dd_yyyy_datetime::deserialize(t) {
            Ok(x) => Ok(Value::DateTime(x)),
            Err(e) => Err(e),
        },
        Codec::YyyyMmDdDatetime => match crate::yyyy_mm_dd_datetime::deserialize(t) {
            Ok(x) => Ok(Value::DateTime(x)),
            Err(e) => Err(e),
        },
        Codec::HhmmTime => match crate::hhmm_time::deserialize(t) {
            Ok(x) => Ok(Value::Time(x)),
            Err(e) => Err(e),
        },
        Codec::VaDatetime => match crate::va_datetime::deserialize(t) {
            Ok(x) => Ok(Value::DateTime(x)),
            Err(e) => Err(e),
        },
        Codec::MssqlDate => match crate::mssql_date::deserialize(t) {
            Ok(x) => Ok(Value::Date(x)),
            Err(e) => Err(e),
        },
        Codec::MssqlDatetime => match crate::mssql_datetime::deserialize(t) {
            Ok(x) => Ok(Value::DateTime(x)),
            Err(e) => Err(e),
        },
        Codec::Currency => match crate::currency::deserialize(t) {
            Ok(x) => Ok(Value::Amount(x)),
            Err(e) => Err(e),
        },
        Codec::CurrencyOpt => match crate::currency_opt::deserialize(t) {
            Ok(x) => Ok(Value::OptAmount(x)),
            Err(e) => Err(e),
        },
        Codec::EnumFromId(vs) => match crate::enum_from_id::deserialize(t, vs) {
            Ok(x) => Ok(Value::Variant(x)),
            Err(e) => Err(e),
        },
        Codec::EnumFromIdOrDefault { variants, fallback } => match crate::enum_from_id_or_default::deserialize(t, variants, *fallback) {
            Ok(x) => Ok(Value::Variant(x)),
            Err(e) => Err(e),
        },
        Codec::PossiblyEmptyInteger => match crate::possibly_empty_parseable_value::deserialize(t, integer) {
            Ok(x) => Ok(Value::OptInteger(x)),
            Err(e) => Err(e),
        },
        _ => Err(CoercionError::new(t, Expected::Value)),
    }
}

/// Reads one field from a spreadsheet cell.
pub fn decode_cell(codec: &Codec, cell: &Cell) -> (r: Result<Value, CoercionError>)
    ensures
        field_view(r) == cell_field(codec, cell@),
{
    match codec {
        Codec::ExcelDate => match crate::excel::excel_date::deserialize(cell) {
            Ok(x) => Ok(Value::Date(x)),
            Err(e) => Err(e),
        },
        Codec::ExcelDateOpt => match crate::excel::excel_date_opt::deserialize(cell) {
            Ok(x) => Ok(Value::OptDate(x)),
            Err(e) => Err(e),
        },
        Codec::ExcelDatetime => match crate::excel::excel_datetime::deserialize(cell) {
            Ok(x) => Ok(Value::DateTime(x)),
            Err(e) => Err(e),
        },
        Codec::ExcelDatetimeOpt => match crate::excel::excel_datetime_opt::deserialize(cell) {
            Ok(x) => Ok(Value::OptDateTime(x)),
            Err(e) => Err(e),
        },
        Codec::ExcelTime => match crate::excel::excel_time::deserialize(cell) {
            Ok(x) => Ok(Value::Time(x)),
            Err(e) => Err(e),
        },
        Codec::ExcelTimeOpt => match crate::excel::excel_time_opt::deserialize(cell) {
            Ok(x) => Ok(Value::OptTime(x)),
            Err(e) => Err(e),
        },
        _ => match cell.as_text() {
            Some(t) => decode_text(codec, t.as_str()),
            None => Err(CoercionError { raw: String::new(), expected: Expected::Value }),
        },
    }
}

} // verus!
