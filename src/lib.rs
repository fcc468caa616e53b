//! Field-level coercion codecs for tabular records, and a batch decoder that
//! turns delimited text or worksheet rows into typed records, leaving out the
//! rows that cannot be decoded and reporting each of them.

// text, numbers and calendar values that the codecs work with
pub mod calendar;
pub mod decimal;
pub mod error;
pub mod number;
pub mod text;

// flags
pub mod non_null_bool;
pub mod nullable_bool;
pub mod nullable_int_bool;
pub mod nullable_true_false_bool;
pub mod nullable_yes_no_bool;
pub mod true_false_bool;
pub mod yes_no_bool;
pub mod zero_one_bool;
pub mod zero_one_int_bool;

// strings and lists
pub mod comma_separated;
pub mod line_separated;
pub mod nonempty_string;
pub mod nullable_string;
pub mod semi_separated_list;

// dates and times written as text
pub mod hhmm_time;
pub mod mm_dd_yy_date;
pub mod mm_dd_yyyy_date;
pub mod mm_dd_yyyy_date_opt;
pub mod mm_dd_yyyy_datetime;
pub mod mm_dd_yyyy_datetime_opt;
pub mod mssql_date;
pub mod mssql_datetime;
pub mod nullable_mssql_datetime;
pub mod nullable_yyyy_mm_dd_datetime;
pub mod timeless_mm_dd_yyyy_date;
pub mod va_datetime;
pub mod va_datetime_opt;
pub mod yyyy_mm_dd_datetime;

// worksheet cells, and dates and times stored as numbers
pub mod excel;

// money, enumerations and generic wrappers
pub mod currency;
pub mod currency_opt;
pub mod enum_from_id;
pub mod enum_from_id_opt;
pub mod enum_from_id_or_default;
pub mod nullable_field;
pub mod possibly_empty_parseable_value;
pub mod serialize_id;
pub mod variants;
pub mod xml_enum_wrapper;

// records and batches
pub mod batch;
pub mod delimited;
pub mod record;
pub mod sheet;

pub use serialize_id::serialize_id_empty;
pub use xml_enum_wrapper::XmlEnumWrapper;
