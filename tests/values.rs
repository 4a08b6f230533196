use rustbelt::CellValue;

#[test]
fn empty_cell_renders_as_empty_text() {
    assert_eq!(CellValue::Empty.to_display_string(), "");
    assert!(CellValue::Empty.is_empty());
}

#[test]
fn text_cell_renders_its_text() {
    let v = CellValue::from("C:\\Program Files\\av.exe".to_string());
    assert_eq!(v.to_display_string(), "C:\\Program Files\\av.exe");
}

#[test]
fn signed_integers_render_in_decimal() {
    assert_eq!(CellValue::Int(0).to_display_string(), "0");
    assert_eq!(CellValue::Int(-42).to_display_string(), "-42");
    assert_eq!(CellValue::Int(1234567).to_display_string(), "1234567");
    assert_eq!(CellValue::Int(i64::MIN).to_display_string(), "-9223372036854775808");
    assert_eq!(CellValue::Int(i64::MAX).to_display_string(), "9223372036854775807");
}

#[test]
fn unsigned_integers_render_in_decimal() {
    assert_eq!(CellValue::UInt(7).to_display_string(), "7");
    assert_eq!(CellValue::UInt(10).to_display_string(), "10");
    assert_eq!(CellValue::UInt(u64::MAX).to_display_string(), "18446744073709551615");
}

#[test]
fn booleans_render_as_words() {
    assert_eq!(CellValue::Bool(true).to_display_string(), "true");
    assert_eq!(CellValue::Bool(false).to_display_string(), "false");
}

#[test]
fn bytes_render_as_hex_pairs() {
    assert_eq!(CellValue::Bytes(vec![]).to_display_string(), "");
    assert_eq!(CellValue::Bytes(vec![0x0a, 0xff, 0x00, 0x7c]).to_display_string(), "0aff007c");
}

#[test]
fn date_time_renders_in_utc() {
    assert_eq!(CellValue::DateTime(0).to_display_string(), "1970-01-01 00:00:00 UTC");
    assert_eq!(
        CellValue::from_timestamp_micros(1_704_067_200_000_001).to_display_string(),
        "2024-01-01 00:00:00.000001 UTC"
    );
}

#[test]
fn unrepresentable_date_time_renders_as_empty_text() {
    assert_eq!(CellValue::DateTime(i64::MAX).to_display_string(), "");
    assert_eq!(CellValue::DateTime(i64::MIN).to_display_string(), "");
}

#[test]
fn every_kind_reads_back_what_it_was_built_from() {
    assert_eq!(CellValue::from("abc".to_string()).as_text(), Some("abc"));
    assert_eq!(CellValue::from(-5i64).as_i64(), Some(-5));
    assert_eq!(CellValue::from(5u64).as_u64(), Some(5));
    assert_eq!(CellValue::from(true).as_bool(), Some(true));
    assert_eq!(CellValue::from(vec![1u8, 2, 3]).as_bytes(), Some(&vec![1u8, 2, 3]));
    assert_eq!(CellValue::from_timestamp_micros(-17).as_timestamp_micros(), Some(-17));
}

#[test]
fn accessors_of_another_kind_give_nothing() {
    let v = CellValue::from(3i64);
    assert_eq!(v.as_text(), None);
    assert_eq!(v.as_u64(), None);
    assert_eq!(v.as_bool(), None);
    assert_eq!(v.as_bytes(), None);
    assert_eq!(v.as_timestamp_micros(), None);
    assert_eq!(CellValue::Empty.as_i64(), None);
}
