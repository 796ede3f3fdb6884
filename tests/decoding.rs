use data_access_kit_replication::binary_json::check_document;
use data_access_kit_replication::row::{assemble_row, Field, RowFault, TableInfo};
use data_access_kit_replication::value::{decode_value, ColumnValue, Value};

fn text(s: &str) -> Value {
    Value::Text(s.to_string())
}

#[test]
fn decodes_integers() {
    assert_eq!(decode_value(ColumnValue::Tiny(-3)), Value::Int(-3));
    assert_eq!(decode_value(ColumnValue::Short(300)), Value::Int(300));
    assert_eq!(decode_value(ColumnValue::Long(-70000)), Value::Int(-70000));
    assert_eq!(decode_value(ColumnValue::LongLong(i64::MIN)), Value::Int(i64::MIN));
    assert_eq!(decode_value(ColumnValue::Year(2024)), Value::Int(2024));
    assert_eq!(decode_value(ColumnValue::Timestamp(1700000000)), Value::Int(1700000000));
    assert_eq!(decode_value(ColumnValue::Enum(2)), Value::Int(2));
    assert_eq!(decode_value(ColumnValue::SetMembers(5)), Value::Int(5));
    assert_eq!(decode_value(ColumnValue::Bit(u64::MAX)), Value::Int(-1));
}

#[test]
fn decodes_floats_and_null() {
    let bits = 1.5f64.to_bits();
    assert_eq!(decode_value(ColumnValue::Double(bits)), Value::Float(bits));
    assert_eq!(decode_value(ColumnValue::Float((2.5f32 as f64).to_bits())), Value::Float(2.5f64.to_bits()));
    assert_eq!(decode_value(ColumnValue::Null), Value::Null);
}

#[test]
fn keeps_textual_types() {
    assert_eq!(decode_value(ColumnValue::Decimal("12.50".to_string())), text("12.50"));
    assert_eq!(decode_value(ColumnValue::Date("2024-01-02".to_string())), text("2024-01-02"));
    assert_eq!(decode_value(ColumnValue::DateTime("2024-01-02 03:04:05".to_string())), text("2024-01-02 03:04:05"));
    assert_eq!(decode_value(ColumnValue::Time("03:04:05".to_string())), text("03:04:05"));
}

#[test]
fn decodes_utf8_strings_and_base64_otherwise() {
    assert_eq!(decode_value(ColumnValue::String("héllo".as_bytes().to_vec())), text("héllo"));
    assert_eq!(decode_value(ColumnValue::String(vec![0xff, 0xfe])), text("//4="));
    assert_eq!(decode_value(ColumnValue::Blob(b"hi".to_vec())), text("aGk="));
    assert_eq!(decode_value(ColumnValue::Blob(Vec::new())), text(""));
}

#[test]
fn decodes_json_text_and_falls_back_to_base64() {
    assert_eq!(decode_value(ColumnValue::Json(b"{\"a\":1}".to_vec())), text("{\"a\":1}"));
    assert_eq!(decode_value(ColumnValue::Json(Vec::new())), text(""));
    assert_eq!(decode_value(ColumnValue::Json(vec![0x0c])), text("DA=="));
    assert_eq!(decode_value(ColumnValue::Json(vec![0x05, 0x2a, 0x00])), text("42"));
    assert_eq!(decode_value(ColumnValue::Json(vec![0x0c, 0x02, b'h', b'i'])), text("\"hi\""));
}

fn table(names: Option<Vec<Option<&str>>>) -> TableInfo {
    TableInfo {
        schema: "s".to_string(),
        table: "t".to_string(),
        column_names: names.map(|v| v.into_iter().map(|n| n.map(|s| s.to_string())).collect()),
    }
}

#[test]
fn assembles_named_row() {
    let t = table(Some(vec![Some("id"), Some("name")]));
    let row = assemble_row(&t, vec![ColumnValue::Long(1), ColumnValue::String(b"a".to_vec())]).unwrap();
    assert_eq!(
        row,
        vec![
            Field { name: "id".to_string(), value: Value::Int(1) },
            Field { name: "name".to_string(), value: text("a") },
        ]
    );
    assert_eq!(assemble_row(&table(None), Vec::new()).unwrap(), Vec::new());
}

#[test]
fn reports_missing_table_metadata() {
    let e = assemble_row(&table(None), vec![ColumnValue::Long(1)]).unwrap_err();
    assert_eq!(e.fault, RowFault::NoTableMetadata);
    assert_eq!(
        e.message(),
        "Table metadata not available for table s.t - ensure binlog_row_metadata=FULL"
    );
}

#[test]
fn reports_first_unnamed_column() {
    let t = table(Some(vec![Some("id"), None]));
    let e = assemble_row(&t, vec![ColumnValue::Long(1), ColumnValue::Long(2), ColumnValue::Long(3)]).unwrap_err();
    assert_eq!(e.fault, RowFault::NoColumnName(1));
    assert_eq!(e.message(), "Column name not available for column index 1 in table s.t");
    let short = table(Some(vec![Some("id")]));
    let e = assemble_row(&short, vec![ColumnValue::Long(1), ColumnValue::Long(2)]).unwrap_err();
    assert_eq!(e.fault, RowFault::NoColumnMetadata(1));
    assert_eq!(e.message(), "Column metadata not available for column index 1 in table s.t");
}

#[test]
fn decodes_binary_json_object() {
    // {"a":1}: a small object with one key and an inlined 16-bit integer.
    let doc = vec![0x00, 0x01, 0x00, 0x0c, 0x00, 0x0b, 0x00, 0x01, 0x00, 0x05, 0x01, 0x00, b'a'];
    assert!(check_document(&doc));
    assert_eq!(decode_value(ColumnValue::Json(doc)), text("{\"a\":1}"));
}

#[test]
fn refuses_json_the_reader_cannot_take() {
    // An opaque decimal whose length is too short for its precision and scale.
    let short_decimal = vec![0x0f, 0xf6, 0, 0, 0];
    assert!(!check_document(&short_decimal));
    assert_eq!(decode_value(ColumnValue::Json(short_decimal)), text("D/YAAAA="));
    // A string whose length prefix takes five bytes and reads as negative.
    let negative_length = vec![0x0c, 0xff, 0xff, 0xff, 0xff, 0x0f];
    assert!(!check_document(&negative_length));
    assert_eq!(decode_value(ColumnValue::Json(negative_length)), text("DP////8P"));
    // An array whose only element points back at the array itself.
    let cycle = vec![0x02, 0x01, 0x00, 0x07, 0x00, 0x02, 0x00, 0x00];
    assert!(!check_document(&cycle));
    assert_eq!(decode_value(ColumnValue::Json(cycle)), text("AgEABwACAAA="));
    // A key whose offset lies inside the entry tables.
    let key_behind = vec![0x00, 0x01, 0x00, 0x0c, 0x00, 0x02, 0x00, 0x01, 0x00, 0x05, 0x01, 0x00, b'a'];
    assert!(!check_document(&key_behind));
    // An element count far larger than the document.
    let huge_count = vec![0x03, 0xff, 0xff, 0xff, 0xff, 0x00, 0x00, 0x00, 0x00];
    assert!(!check_document(&huge_count));
    assert!(!check_document(&Vec::new()));
}
