use tabular_ingest::calendar::{Date, DateTime, Time};
use tabular_ingest::error::{CoercionError, Expected};
use tabular_ingest::excel::{self, Cell};
use tabular_ingest::variants::Variants;
use tabular_ingest::{
    comma_separated, currency, currency_opt, enum_from_id, enum_from_id_opt, enum_from_id_or_default,
    hhmm_time, line_separated, mm_dd_yy_date, mm_dd_yyyy_date, mm_dd_yyyy_date_opt, mm_dd_yyyy_datetime,
    mm_dd_yyyy_datetime_opt, mssql_date, mssql_datetime, non_null_bool, nonempty_string, nullable_bool,
    nullable_field, nullable_int_bool, nullable_mssql_datetime, nullable_string, nullable_true_false_bool,
    nullable_yes_no_bool, nullable_yyyy_mm_dd_datetime, possibly_empty_parseable_value, semi_separated_list,
    serialize_id_empty, text, timeless_mm_dd_yyyy_date, true_false_bool, va_datetime, va_datetime_opt,
    yes_no_bool, yyyy_mm_dd_datetime, zero_one_bool, zero_one_int_bool, XmlEnumWrapper,
};

fn date(year: i32, month: u32, day: u32) -> Date {
    Date { year, month, day }
}

fn time(hour: u32, minute: u32, second: u32) -> Time {
    Time { hour, minute, second, nano: 0 }
}

fn expected<T: std::fmt::Debug>(r: Result<T, CoercionError>) -> Expected {
    r.unwrap_err().expected
}

#[test]
fn zero_one_bool_tokens() {
    assert_eq!(zero_one_bool::deserialize("1").unwrap(), true);
    assert_eq!(zero_one_bool::deserialize("true").unwrap(), true);
    assert_eq!(zero_one_bool::deserialize("0").unwrap(), false);
    assert_eq!(zero_one_bool::deserialize("false").unwrap(), false);
    let e = zero_one_bool::deserialize("yes").unwrap_err();
    assert_eq!(e.raw, "yes");
    assert_eq!(e.expected, Expected::OneOrZero);
    assert_eq!(zero_one_bool::serialize(true), "1");
    assert_eq!(zero_one_bool::serialize(false), "0");
}

#[test]
fn boolean_round_trips() {
    for v in [true, false] {
        assert_eq!(zero_one_bool::deserialize(zero_one_bool::serialize(v)).unwrap(), v);
        assert_eq!(yes_no_bool::deserialize(yes_no_bool::serialize(v)).unwrap(), v);
        assert_eq!(true_false_bool::deserialize(true_false_bool::serialize(v)).unwrap(), v);
        assert_eq!(non_null_bool::deserialize(non_null_bool::serialize(v)), v);
    }
    for v in [Some(true), Some(false), None] {
        assert_eq!(nullable_yes_no_bool::deserialize(nullable_yes_no_bool::serialize(v)).unwrap(), v);
        assert_eq!(nullable_true_false_bool::deserialize(nullable_true_false_bool::serialize(v)).unwrap(), v);
        assert_eq!(nullable_bool::deserialize(nullable_bool::serialize(v)), v);
        assert_eq!(nullable_int_bool::deserialize(nullable_int_bool::serialize(v)), v);
    }
}

#[test]
fn yes_no_and_true_false_tokens() {
    assert_eq!(yes_no_bool::deserialize("Yes").unwrap(), true);
    assert_eq!(yes_no_bool::deserialize("No").unwrap(), false);
    assert_eq!(expected(yes_no_bool::deserialize("yes")), Expected::YesOrNo);
    assert_eq!(yes_no_bool::serialize(true), "Yes");
    assert_eq!(nullable_yes_no_bool::deserialize("").unwrap(), None);
    assert_eq!(nullable_yes_no_bool::deserialize("NA").unwrap(), None);
    assert_eq!(expected(nullable_yes_no_bool::deserialize("maybe")), Expected::YesOrNo);
    assert_eq!(true_false_bool::deserialize("True").unwrap(), true);
    assert_eq!(true_false_bool::deserialize("false").unwrap(), false);
    assert_eq!(expected(true_false_bool::deserialize("TRUE")), Expected::TrueOrFalse);
    assert_eq!(true_false_bool::serialize(false), "False");
    assert_eq!(nullable_true_false_bool::deserialize("1").unwrap(), Some(true));
    assert_eq!(nullable_true_false_bool::deserialize("False").unwrap(), Some(false));
    assert_eq!(nullable_true_false_bool::deserialize("NA").unwrap(), None);
    assert_eq!(expected(nullable_true_false_bool::deserialize("x")), Expected::TrueOrFalse);
    assert_eq!(nullable_true_false_bool::serialize(None), "");
}

#[test]
fn non_null_and_nullable_bools() {
    assert_eq!(non_null_bool::deserialize(""), false);
    assert_eq!(non_null_bool::deserialize("NULL"), false);
    assert_eq!(non_null_bool::deserialize("0"), false);
    assert_eq!(non_null_bool::deserialize("anything"), true);
    assert_eq!(nullable_bool::deserialize("true"), Some(true));
    assert_eq!(nullable_bool::deserialize("0"), Some(false));
    assert_eq!(nullable_bool::deserialize("x"), None);
    assert_eq!(nullable_bool::serialize(None), "");
    assert_eq!(nullable_bool::default_true(), Some(true));
    assert_eq!(nullable_bool::default_false(), Some(false));
    assert_eq!(nullable_int_bool::default_true(), Some(true));
    assert_eq!(nullable_int_bool::default_false(), Some(false));
}

#[test]
fn integer_coded_bools() {
    assert_eq!(zero_one_int_bool::deserialize("1").unwrap(), true);
    assert_eq!(zero_one_int_bool::deserialize("0").unwrap(), false);
    assert_eq!(zero_one_int_bool::deserialize("+1").unwrap(), true);
    assert_eq!(expected(zero_one_int_bool::deserialize("2")), Expected::OneOrZero);
    assert_eq!(expected(zero_one_int_bool::deserialize("one")), Expected::Integer);
    assert_eq!(nullable_int_bool::deserialize("1"), Some(true));
    assert_eq!(nullable_int_bool::deserialize("0"), Some(false));
    assert_eq!(nullable_int_bool::deserialize("7"), None);
    assert_eq!(nullable_int_bool::deserialize("true"), None);
}

#[test]
fn strings() {
    assert_eq!(nonempty_string::deserialize("a").unwrap(), "a");
    assert_eq!(expected(nonempty_string::deserialize("")), Expected::NonEmpty);
    assert_eq!(nullable_string::deserialize("NULL"), None);
    assert_eq!(nullable_string::deserialize(""), None);
    assert_eq!(nullable_string::deserialize("x y"), Some("x y".to_string()));
}

#[test]
fn lists() {
    assert_eq!(semi_separated_list::deserialize("a;b;;c"), vec!["a", "b", "", "c"]);
    assert_eq!(semi_separated_list::deserialize("abc"), vec!["abc"]);
    assert_eq!(semi_separated_list::deserialize(""), vec![""]);
    assert_eq!(comma_separated::deserialize(" a , b,c "), vec!["a", "b", "c"]);
    assert_eq!(comma_separated::deserialize("solo"), vec!["solo"]);
    assert_eq!(line_separated::deserialize("a\r\nb\nc\n"), vec!["a", "b", "c"]);
    assert_eq!(line_separated::deserialize("one line"), vec!["one line"]);
    assert_eq!(line_separated::deserialize(""), vec![""]);
}

#[test]
fn trimming_unicode_white_space() {
    assert_eq!(text::trim("\u{a0}\t x y \u{3000}\n"), "x y");
    assert_eq!(text::trim("   "), "");
}

#[test]
fn month_day_year_dates() {
    assert_eq!(mm_dd_yy_date::deserialize(" 01/02/03 ").unwrap(), date(2003, 1, 2));
    assert_eq!(timeless_mm_dd_yyyy_date::deserialize("12/31/2020").unwrap(), date(2020, 12, 31));
    assert_eq!(expected(timeless_mm_dd_yyyy_date::deserialize("2020-12-31")), Expected::Date);
    assert_eq!(expected(timeless_mm_dd_yyyy_date::deserialize("02/30/2020")), Expected::Date);
    assert_eq!(mm_dd_yyyy_date::deserialize("01/02/2020 13:14:15").unwrap(), date(2020, 1, 2));
    assert_eq!(mm_dd_yyyy_date::deserialize("01/02/2020 13:14").unwrap(), date(2020, 1, 2));
    assert_eq!(mm_dd_yyyy_date::deserialize(" 03/04/2021 ").unwrap(), date(2021, 3, 4));
    assert_eq!(mm_dd_yyyy_date_opt::deserialize("03/04/2021"), Some(date(2021, 3, 4)));
    let e = mm_dd_yyyy_date::deserialize("  garbage ").unwrap_err();
    assert_eq!(e.raw, "garbage");
    assert_eq!(e.expected, Expected::Date);
    assert_eq!(mm_dd_yyyy_date_opt::deserialize("01/02/2020 13:14"), Some(date(2020, 1, 2)));
    assert_eq!(mm_dd_yyyy_date_opt::deserialize("garbage"), None);
}

#[test]
fn month_day_year_datetimes() {
    let dt = mm_dd_yyyy_datetime::deserialize("07/04/1999 08:09:10").unwrap();
    assert_eq!(dt, DateTime { date: date(1999, 7, 4), time: time(8, 9, 10) });
    let dt = mm_dd_yyyy_datetime::deserialize("07/04/1999 08:09").unwrap();
    assert_eq!(dt.time, time(8, 9, 0));
    assert_eq!(expected(mm_dd_yyyy_datetime::deserialize("07/04/1999")), Expected::DateTime);
    assert_eq!(mm_dd_yyyy_datetime_opt::deserialize("07/04/1999"), None);
    let va = va_datetime::deserialize("03/04/2021 01:02:03 PM").unwrap();
    assert_eq!(va, DateTime { date: date(2021, 3, 4), time: time(13, 2, 3) });
    assert_eq!(expected(va_datetime::deserialize("03/04/2021 13:02:03")), Expected::DateTime);
    assert_eq!(va_datetime_opt::deserialize("nonsense"), None);
}

#[test]
fn iso_like_and_database_stamps() {
    let dt = yyyy_mm_dd_datetime::deserialize("2021-03-04 05:06:07").unwrap();
    assert_eq!(dt, DateTime { date: date(2021, 3, 4), time: time(5, 6, 7) });
    assert_eq!(expected(yyyy_mm_dd_datetime::deserialize("2021-03-04")), Expected::DateTime);
    assert_eq!(nullable_yyyy_mm_dd_datetime::deserialize(""), None);
    let ms = mssql_datetime::deserialize("2021-03-04 05:06:07.123").unwrap();
    assert_eq!(ms.time, Time { hour: 5, minute: 6, second: 7, nano: 123_000_000 });
    assert_eq!(mssql_date::deserialize("2021-03-04 05:06:07.123").unwrap(), date(2021, 3, 4));
    assert_eq!(expected(mssql_date::deserialize("2021-03-04 05:06:07")), Expected::Date);
    assert_eq!(nullable_mssql_datetime::deserialize("2021-03-04"), None);
}

#[test]
fn compact_times() {
    assert_eq!(hhmm_time::deserialize("0930").unwrap(), time(9, 30, 0));
    assert_eq!(hhmm_time::deserialize("2359").unwrap(), time(23, 59, 0));
    assert_eq!(expected(hhmm_time::deserialize("2460")), Expected::Time);
}

#[test]
fn spreadsheet_epoch_and_noon() {
    let zero = Cell::Number { days: 0, seconds: 0, text: "0".to_string() };
    assert_eq!(excel::excel_date::deserialize(&zero).unwrap(), date(1899, 12, 30));
    let half = Cell::Number { days: 0, seconds: 43200, text: "0.5".to_string() };
    assert_eq!(excel::excel_time::deserialize(&half).unwrap(), time(12, 0, 0));
    let dt = excel::excel_datetime::deserialize(&half).unwrap();
    assert_eq!(dt, DateTime { date: date(1899, 12, 30), time: time(12, 0, 0) });
    let day = Cell::Number { days: 44197, seconds: 0, text: "44197".to_string() };
    assert_eq!(excel::excel_date::deserialize(&day).unwrap(), date(2021, 1, 1));
    assert_eq!(excel::date_of_serial(1), Some(date(1899, 12, 31)));
}

#[test]
fn spreadsheet_cells_of_other_kinds() {
    let text = Cell::Text("01/01/2020".to_string());
    assert_eq!(expected(excel::excel_date::deserialize(&text)), Expected::DateCell);
    assert_eq!(excel::excel_date_opt::deserialize(&Cell::Text(String::new())).unwrap(), None);
    assert_eq!(excel::excel_date_opt::deserialize(&Cell::Empty).unwrap(), None);
    assert_eq!(expected(excel::excel_date_opt::deserialize(&text)), Expected::DateCell);
    assert_eq!(expected(excel::excel_datetime::deserialize(&Cell::Other("7".to_string()))), Expected::DateTimeCell);
    assert_eq!(excel::excel_datetime_opt::deserialize(&Cell::Empty).unwrap(), None);
    let whole_day = Cell::Number { days: 3, seconds: 86400, text: "3.99999".to_string() };
    assert_eq!(expected(excel::excel_datetime::deserialize(&whole_day)), Expected::DateTimeCell);
    let pm = Cell::Text("01:02:03 PM".to_string());
    assert_eq!(excel::excel_time::deserialize(&pm).unwrap(), time(13, 2, 3));
    assert_eq!(expected(excel::excel_time::deserialize(&Cell::Error)), Expected::TimeCell);
    assert_eq!(excel::excel_time_opt::deserialize(&Cell::Text(String::new())).unwrap(), None);
    assert_eq!(excel::excel_time_opt::deserialize(&pm).unwrap(), Some(time(13, 2, 3)));
    assert_eq!(expected(excel::excel_time_opt::deserialize(&Cell::Text("noon".to_string()))), Expected::TimeCell);
}

#[test]
fn currency_amounts() {
    let a = currency::deserialize("$1,234.56").unwrap();
    assert_eq!(a, "1234.56");
    assert_eq!(a.parse::<f64>().unwrap(), 1234.56);
    let z = currency::deserialize("  $0 ").unwrap();
    assert_eq!(z.parse::<f64>().unwrap(), 0.0);
    assert_eq!(currency_opt::deserialize("").unwrap(), None);
    assert_eq!(expected(currency::deserialize("")), Expected::Number);
    assert_eq!(currency_opt::deserialize("$5").unwrap(), Some("5".to_string()));
    assert_eq!(expected(currency_opt::deserialize("  ")), Expected::Number);
    assert_eq!(expected(currency::deserialize("$1.2.3")), Expected::Number);
    assert_eq!(currency::amount(" $ 1,000 "), " 1000");
}

#[test]
fn float_grammar_matches_std() {
    for t in ["1", "-1.5", "+.5", "5.", "1e10", "2.5E-3", "inf", "-Infinity", "NaN", "1_000", "e5", ".", "1e", "--1", "1.2.3", " 1"] {
        assert_eq!(tabular_ingest::decimal::is_float_text(t), t.parse::<f64>().is_ok(), "{}", t);
    }
}

#[test]
fn integers_match_std() {
    for t in ["0", "-0", "+42", "2147483647", "2147483648", "-2147483648", "-2147483649", "", "-", "1 ", "12a"] {
        assert_eq!(tabular_ingest::number::parse_i32(t), t.parse::<i32>().ok(), "{}", t);
    }
    for v in [0, 7, -7, 2147483647, -2147483648] {
        assert_eq!(tabular_ingest::number::i32_text(v), v.to_string());
    }
}

#[test]
fn enumerations_by_id() {
    let vs = Variants::new(vec![1, 2, 5]);
    assert_eq!(enum_from_id::deserialize("2", &vs).unwrap(), 1);
    assert_eq!(expected(enum_from_id::deserialize("7", &vs)), Expected::KnownId);
    assert_eq!(expected(enum_from_id::deserialize("x", &vs)), Expected::Integer);
    assert_eq!(enum_from_id_opt::deserialize("5", &vs), Some(2));
    assert_eq!(enum_from_id_opt::deserialize("7", &vs), None);
    assert_eq!(enum_from_id_opt::deserialize("x", &vs), None);
    assert_eq!(enum_from_id_or_default::deserialize("7", &vs, 0).unwrap(), 0);
    assert_eq!(enum_from_id_or_default::deserialize("5", &vs, 0).unwrap(), 2);
    assert_eq!(expected(enum_from_id_or_default::deserialize("x", &vs, 0)), Expected::Integer);
    assert_eq!(enum_from_id::serialize(2, &vs), "5");
    assert_eq!(enum_from_id_opt::serialize(Some(0), &vs), "1");
    assert_eq!(enum_from_id_opt::serialize(None, &vs), "");
    assert_eq!(enum_from_id_or_default::serialize(1, &vs), "2");
    assert_eq!(enum_from_id_opt::default(1), Some(1));
}

#[test]
fn ids_with_none_as_empty() {
    assert_eq!(serialize_id_empty(0), "");
    assert_eq!(serialize_id_empty(42), "42");
    assert_eq!(serialize_id_empty(-7), "-7");
}

#[test]
fn generic_wrappers() {
    let int = |s: &str| tabular_ingest::number::parse_i32(s).ok_or(CoercionError::new(s, Expected::Integer));
    assert_eq!(nullable_field::deserialize("12", int), Some(12));
    assert_eq!(nullable_field::deserialize("x", int), None);
    assert_eq!(possibly_empty_parseable_value::deserialize("", int).unwrap(), None);
    assert_eq!(possibly_empty_parseable_value::deserialize("3", int).unwrap(), Some(3));
    assert_eq!(expected(possibly_empty_parseable_value::deserialize("x", int)), Expected::Integer);
    let w = XmlEnumWrapper::new(4);
    assert_eq!(XmlEnumWrapper::deserialize_inner(w.clone()), 4);
    assert_eq!(XmlEnumWrapper::deserialize_nullable_inner(Ok(w)), Some(4));
    let failed: Result<XmlEnumWrapper<i32>, CoercionError> = Err(CoercionError::new("", Expected::Value));
    assert_eq!(XmlEnumWrapper::deserialize_nullable_inner(failed), None);
}
