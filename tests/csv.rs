use bevy_common_assets::csv::{gather_rows, CsvAssetPlugin, CsvLoaderError, COMMA};

type Tree = (i32, i32, i32);

#[test]
fn three_rows_give_three_records() {
    let loader = CsvAssetPlugin::<Tree>::new(&["csv"]).loader();
    let loaded = loader.load(b"x,y,z\n1,2,3\n4,5,6\n7,8,9\n").unwrap();
    assert_eq!(loaded.rows, vec![(1, 2, 3), (4, 5, 6), (7, 8, 9)]);
}

#[test]
fn malformed_second_row_fails_whole_read() {
    let loader = CsvAssetPlugin::<Tree>::new(&["csv"]).loader();
    match loader.load(b"x,y,z\n1,2,3\n4,oops,6\n7,8,9\n") {
        Err(CsvLoaderError::CsvError(e)) => {
            assert_eq!(e.position().map(|p| p.line()), Some(3));
        }
        Err(e) => panic!("unexpected error {:?}", e),
        Ok(_) => panic!("a malformed row was accepted"),
    }
}

#[test]
fn default_delimiter_is_comma() {
    let plugin = CsvAssetPlugin::<Tree>::new(&["csv"]);
    assert_eq!(plugin.loader().delimiter(), COMMA);
    assert_eq!(COMMA, b',');
}

#[test]
fn semicolon_delimiter_splits_fields() {
    let loader = CsvAssetPlugin::<Tree>::new(&["csv"]).with_delimiter(b';').loader();
    assert_eq!(loader.delimiter(), b';');
    let loaded = loader.load(b"a;b;c\n1;2;3\n").unwrap();
    assert_eq!(loaded.rows, vec![(1, 2, 3)]);
}

#[test]
fn semicolon_delimiter_keeps_commas_in_one_field() {
    let fields = CsvAssetPlugin::<Vec<String>>::new(&["csv"]).with_delimiter(b';').loader();
    let loaded = fields.load(b"h\na,b,c\n").unwrap();
    assert_eq!(loaded.rows, vec![vec!["a,b,c".to_string()]]);
    let triples = CsvAssetPlugin::<Tree>::new(&["csv"]).with_delimiter(b';').loader();
    assert!(matches!(triples.load(b"h\n1,2,3\n"), Err(CsvLoaderError::CsvError(_))));
}

#[test]
fn header_only_gives_no_rows() {
    let loader = CsvAssetPlugin::<Tree>::new(&["csv"]).loader();
    assert!(loader.load(b"x,y,z\n").unwrap().rows.is_empty());
}

#[test]
fn gathered_rows_keep_order() {
    let loaded = gather_rows::<i32>(vec![Ok(3), Ok(1), Ok(2)]).unwrap();
    assert_eq!(loaded.rows, vec![3, 1, 2]);
    assert!(gather_rows::<i32>(vec![]).unwrap().rows.is_empty());
}

fn row_errors() -> Vec<csv::Error> {
    let source: &[u8] = b"n\nfirst\nsecond\n";
    csv::Reader::from_reader(source)
        .into_deserialize::<i32>()
        .filter_map(|r| r.err())
        .collect()
}

#[test]
fn gathered_rows_report_first_failure() {
    let mut errors = row_errors();
    assert_eq!(errors.len(), 2);
    let second = errors.pop().unwrap();
    let first = errors.pop().unwrap();
    match gather_rows::<i32>(vec![Ok(1), Err(first), Ok(2), Err(second)]) {
        Err(CsvLoaderError::CsvError(e)) => {
            assert_eq!(e.position().map(|p| p.line()), Some(2));
        }
        _ => panic!("expected the first row error"),
    }
}

#[test]
fn semicolon_rows_split_into_fields() {
    let loader = CsvAssetPlugin::<Vec<String>>::new(&["csv"]).with_delimiter(b';').loader();
    let loaded = loader.load(b"a;b;c\nx;y;z\n1;2;3\n").unwrap();
    assert_eq!(loaded.rows.len(), 2);
    assert_eq!(loaded.rows[1], vec!["1".to_string(), "2".to_string(), "3".to_string()]);
}
