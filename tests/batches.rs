use tabular_ingest::batch::{Field, RowError};
use tabular_ingest::delimited::{self, TableError, COMMA, TAB};
use tabular_ingest::error::Expected;
use tabular_ingest::excel::Cell;
use tabular_ingest::record::{decode_text, Codec, Value};
use tabular_ingest::sheet;
use tabular_ingest::variants::Variants;

fn shape() -> Vec<Field> {
    vec![Field::new("id", Codec::Integer), Field::new("active", Codec::ZeroOneBool), Field::new("name", Codec::Text)]
}

fn record(id: i32, active: bool, name: &str) -> Vec<Value> {
    vec![Value::Integer(id), Value::Bool(active), Value::Text(name.to_string())]
}

#[test]
fn one_malformed_row_is_left_out() {
    let bytes = b"id,active,name\n1,1,ann\n2,maybe,bob\n3,0,cy\n".to_vec();
    let batch = delimited::from_bytes(&shape(), &bytes).unwrap();
    assert_eq!(batch.records, vec![record(1, true, "ann"), record(3, false, "cy")]);
    assert_eq!(batch.diagnostics.len(), 1);
    assert_eq!(batch.diagnostics[0].row, 1);
    match &batch.diagnostics[0].error {
        RowError::Field { name, error } => {
            assert_eq!(name, "active");
            assert_eq!(error.raw, "maybe");
            assert_eq!(error.expected, Expected::OneOrZero);
        },
        other => panic!("unexpected {:?}", other),
    }
}

#[test]
fn columns_are_found_by_header() {
    let bytes = b"name,extra,active,id\nann,x,true,7\n".to_vec();
    let batch = delimited::from_bytes(&shape(), &bytes).unwrap();
    assert_eq!(batch.records, vec![record(7, true, "ann")]);
    assert!(batch.diagnostics.is_empty());
}

#[test]
fn invalid_utf8_is_read_with_replacement() {
    let mut bytes = b"id,active,name\n1,1,a".to_vec();
    bytes.push(0xff);
    bytes.extend_from_slice(b"b\n2,0,ok\n");
    let batch = delimited::from_bytes(&shape(), &bytes).unwrap();
    assert_eq!(batch.records, vec![record(1, true, "a\u{fffd}b"), record(2, false, "ok")]);
    assert!(batch.diagnostics.is_empty());
    let strict = delimited::from_text(&shape(), &bytes, COMMA).unwrap();
    assert_eq!(strict.records, vec![record(2, false, "ok")]);
    assert_eq!(strict.diagnostics.len(), 1);
    assert_eq!(strict.diagnostics[0].row, 0);
    assert_eq!(strict.diagnostics[0].error, RowError::NotUtf8);
}

#[test]
fn structural_failures_are_reported() {
    let bytes = b"id,active,name\n1,1\n2,0,bo\n".to_vec();
    let batch = delimited::from_bytes(&shape(), &bytes).unwrap();
    assert_eq!(batch.records, vec![record(2, false, "bo")]);
    assert_eq!(batch.diagnostics[0].error, RowError::UnequalLength { header: 3, row: 2 });
    let missing = delimited::from_bytes(&shape(), &b"id,name\n1,a\n".to_vec()).unwrap();
    assert!(missing.records.is_empty());
    assert_eq!(missing.diagnostics[0].error, RowError::MissingField("active".to_string()));
}

#[test]
fn tab_separated_text() {
    let bytes = b"id\tactive\tname\n4\tfalse\tdee\n".to_vec();
    let batch = delimited::from_text(&shape(), &bytes, TAB).unwrap();
    assert_eq!(batch.records, vec![record(4, false, "dee")]);
}

#[test]
fn source_without_header_is_refused() {
    assert_eq!(delimited::from_bytes(&shape(), &Vec::new()).unwrap_err(), TableError::MissingHeader);
    assert_eq!(delimited::from_text(&shape(), &Vec::new(), COMMA).unwrap_err(), TableError::MissingHeader);
    assert_eq!(delimited::from_text(&shape(), &Vec::new(), TAB).unwrap_err(), TableError::MissingHeader);
    assert_eq!(sheet::from_sheet(&shape(), &Vec::new()).unwrap_err(), TableError::MissingHeader);
}

#[test]
fn header_without_rows_gives_empty_batch() {
    let batch = delimited::from_bytes(&shape(), &b"id,active,name\n".to_vec()).unwrap();
    assert!(batch.records.is_empty());
    assert!(batch.diagnostics.is_empty());
    let rows = vec![vec![Cell::Text("id".to_string())]];
    let sheet_batch = sheet::from_sheet(&shape(), &rows).unwrap();
    assert!(sheet_batch.records.is_empty());
}

#[test]
fn decoding_twice_gives_the_same_batch() {
    let bytes = b"id,active,name\n1,1,ann\nx,1,bad\n3,0,c\xffy\n".to_vec();
    let first = delimited::from_bytes(&shape(), &bytes).unwrap();
    let second = delimited::from_bytes(&shape(), &bytes).unwrap();
    assert_eq!(first, second);
    assert_eq!(format!("{:?}", first), format!("{:?}", second));
}

#[test]
fn worksheet_rows() {
    let fields = vec![
        Field::new("when", Codec::ExcelDate),
        Field::new("count", Codec::Integer),
        Field::new("state", Codec::EnumFromIdOrDefault { variants: Variants::new(vec![10, 20]), fallback: 0 }),
    ];
    let text = |s: &str| Cell::Text(s.to_string());
    let rows = vec![
        vec![text("when"), text("count"), text("state")],
        vec![Cell::Number { days: 2, seconds: 0, text: "2".to_string() }, Cell::Other("5".to_string()), Cell::Other("20".to_string())],
        vec![text("soon"), Cell::Other("6".to_string()), Cell::Other("10".to_string())],
        vec![Cell::Number { days: 3, seconds: 0, text: "3".to_string() }, Cell::Other("7".to_string()), Cell::Other("99".to_string())],
    ];
    let batch = sheet::from_sheet(&fields, &rows).unwrap();
    let day = |d: u32| Value::Date(tabular_ingest::calendar::Date { year: 1900, month: 1, day: d });
    assert_eq!(batch.records, vec![vec![day(1), Value::Integer(5), Value::Variant(1)], vec![day(2), Value::Integer(7), Value::Variant(0)]]);
    assert_eq!(batch.diagnostics.len(), 1);
    assert_eq!(batch.diagnostics[0].row, 1);
}

#[test]
fn codec_registry_reads_text() {
    assert_eq!(decode_text(&Codec::CommaSeparated, "a, b").unwrap(), Value::List(vec!["a".to_string(), "b".to_string()]));
    assert_eq!(decode_text(&Codec::CurrencyOpt, "").unwrap(), Value::OptAmount(None));
    assert_eq!(decode_text(&Codec::PossiblyEmptyInteger, "").unwrap(), Value::OptInteger(None));
    assert_eq!(decode_text(&Codec::NullableInteger, "q").unwrap(), Value::OptInteger(None));
    assert_eq!(decode_text(&Codec::Integer, "q").unwrap_err().expected, Expected::Integer);
}

#[test]
fn error_cells_are_refused() {
    let fields = vec![Field::new("count", Codec::Integer)];
    let rows = vec![vec![Cell::Text("count".to_string())], vec![Cell::Error], vec![Cell::Other("3".to_string())]];
    let batch = sheet::from_sheet(&fields, &rows).unwrap();
    assert_eq!(batch.records, vec![vec![Value::Integer(3)]]);
    match &batch.diagnostics[0].error {
        RowError::Field { name, error } => {
            assert_eq!(name, "count");
            assert_eq!(error.expected, Expected::Value);
        },
        other => panic!("unexpected {:?}", other),
    }
}
