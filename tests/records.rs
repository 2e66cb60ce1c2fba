use bevy_common_assets::records::collect_records;

#[test]
fn all_records_collected_in_order() {
    let r: Result<Vec<i32>, String> = collect_records(vec![Ok(1), Ok(2), Ok(3)]);
    assert_eq!(r, Ok(vec![1, 2, 3]));
}

#[test]
fn first_failure_wins() {
    let r: Result<Vec<i32>, String> =
        collect_records(vec![Ok(1), Err("two".to_string()), Ok(3), Err("four".to_string())]);
    assert_eq!(r, Err("two".to_string()));
}

#[test]
fn no_records_collect_to_empty() {
    let r: Result<Vec<i32>, String> = collect_records(vec![]);
    assert_eq!(r, Ok(vec![]));
}
