use bevy_common_assets::jsonl::{
    decode_record, decode_records, split_lines, split_records, JsonLinesAssetPlugin, JsonLinesLoaderError,
};
use bevy_common_assets::records::collect_records;
use std::collections::HashMap;

type Row = HashMap<String, i32>;

fn loader() -> bevy_common_assets::jsonl::JsonLinesAssetLoader<Vec<Row>, Row> {
    JsonLinesAssetPlugin::<Vec<Row>, Row>::new(&["jsonl"]).loader()
}

fn row(x: i32) -> Row {
    let mut m = HashMap::new();
    m.insert("x".to_string(), x);
    m
}

#[test]
fn final_line_break_is_optional() {
    let with = loader().load(b"{\"x\":1}\n{\"x\":2}\n").unwrap();
    let without = loader().load(b"{\"x\":1}\n{\"x\":2}").unwrap();
    assert_eq!(with, vec![row(1), row(2)]);
    assert_eq!(with, without);
}

#[test]
fn empty_source_has_no_records() {
    assert!(loader().load(b"").unwrap().is_empty());
    assert!(split_records(b"").is_empty());
}

#[test]
fn lone_line_break_is_dropped() {
    assert!(loader().load(b"\n").unwrap().is_empty());
}

#[test]
fn blank_line_is_a_record_and_fails() {
    let r = loader().load(b"{\"x\":1}\n\n{\"x\":2}\n");
    assert!(matches!(r, Err(JsonLinesLoaderError::JsonError(_))));
}

#[test]
fn crlf_line_endings_are_accepted() {
    let rows = loader().load(b"{\"x\":1}\r\n{\"x\":2}\r\n").unwrap();
    assert_eq!(rows, vec![row(1), row(2)]);
}

#[test]
fn bad_record_fails_whole_read() {
    let r = loader().load(b"{\"x\":1}\n{\"x\":\n{\"x\":3}\n");
    assert!(matches!(r, Err(JsonLinesLoaderError::JsonError(_))));
}

#[test]
fn non_utf8_line_is_an_io_error() {
    match loader().load(b"{\"x\":1}\n\xff\xfe\n") {
        Err(JsonLinesLoaderError::Io(e)) => assert_eq!(e.kind(), std::io::ErrorKind::InvalidData),
        other => panic!("expected an I/O error, got {:?}", other),
    }
}

#[test]
fn lines_split_at_line_feeds() {
    let lines = split_lines(b"a\r\nb\n\nc\r");
    let expected: Vec<&[u8]> = vec![b"a", b"b", b"", b"c\r"];
    assert_eq!(lines, expected);
}

#[test]
fn lines_keep_one_empty_line_before_final_break() {
    let lines = split_lines(b"a\n\n");
    let expected: Vec<&[u8]> = vec![b"a", b""];
    assert_eq!(lines, expected);
    let records = split_records(b"a\n\n");
    let expected: Vec<&[u8]> = vec![b"a"];
    assert_eq!(records, expected);
}

#[test]
fn line_without_break_is_one_line() {
    let lines = split_lines(b"abc");
    let expected: Vec<&[u8]> = vec![b"abc"];
    assert_eq!(lines, expected);
}

#[test]
fn second_final_line_break_adds_an_empty_record() {
    assert!(loader().load(b"\n").unwrap().is_empty());
    assert!(matches!(loader().load(b"\n\n"), Err(JsonLinesLoaderError::JsonError(_))));
    let expected: Vec<&[u8]> = vec![b"{}", b""];
    assert_eq!(split_records(b"{}\n\n\n"), expected);
}

#[test]
fn io_error_converts_to_io_kind() {
    let e = JsonLinesLoaderError::from(std::io::Error::other("gone"));
    assert!(matches!(e, JsonLinesLoaderError::Io(_)));
}

#[test]
fn decoded_records_keep_file_order() {
    let lines: Vec<&[u8]> = vec![b"{\"x\":2}", b"{\"x\":1}", b"{\"x\":3}"];
    let results = decode_records::<Row>(&lines);
    assert_eq!(results.len(), 3);
    assert_eq!(collect_records(results).unwrap(), vec![row(2), row(1), row(3)]);
}

#[test]
fn first_failing_line_decides_the_error() {
    let lines: Vec<&[u8]> = vec![b"{\"x\":1}", b"nope", b"\xff"];
    let results = decode_records::<Row>(&lines);
    assert!(matches!(results[2], Err(JsonLinesLoaderError::Io(_))));
    assert!(matches!(collect_records(results), Err(JsonLinesLoaderError::JsonError(_))));
}

#[test]
fn non_utf8_record_is_invalid_data() {
    match decode_record::<Row>(b"\xc3\x28") {
        Err(JsonLinesLoaderError::Io(e)) => assert_eq!(e.kind(), std::io::ErrorKind::InvalidData),
        other => panic!("expected an I/O error, got {:?}", other),
    }
    assert_eq!(decode_record::<Row>(b"{\"x\":5}").unwrap(), row(5));
}
