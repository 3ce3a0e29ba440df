use corrupttest::results::{aggregate, ResultEntry, ResultMap};
use corrupttest::Effectiveness;

fn entry(table: &str, injection: &str, e: Effectiveness) -> ResultEntry {
    ResultEntry {
        table_name: table.to_owned(),
        workload: "double".to_owned(),
        injection: injection.to_owned(),
        effectiveness: e,
    }
}

#[test]
fn each_key_is_written_at_most_once() {
    let mut m = ResultMap::new();
    assert!(m.insert(entry("t0", "missingIndex", Effectiveness::Success)));
    assert!(!m.insert(entry("t0", "missingIndex", Effectiveness::Failure)));
    assert_eq!(m.len(), 1);
    assert!(m.contains_key("t0", "double", "missingIndex"));
    assert!(!m.contains_key("t1", "double", "missingIndex"));
    assert!(!m.contains_key("t0", "single", "missingIndex"));
    assert!(m.insert(entry("t1", "missingIndex", Effectiveness::Failure)));
    assert_eq!(m.len(), 2);
}

#[test]
fn counts_are_split_by_injection_and_category() {
    let mut m = ResultMap::new();
    assert!(m.insert(entry("t0", "missingIndex", Effectiveness::Success)));
    assert!(m.insert(entry("t1", "missingIndex", Effectiveness::Success)));
    assert!(m.insert(entry("t2", "missingIndex", Effectiveness::Consistent)));
    assert!(m.insert(entry("t0", "extraIndex", Effectiveness::Failure)));
    assert!(m.insert(entry("t1", "extraIndex", Effectiveness::OtherError)));
    assert_eq!(m.count_matching("missingIndex", Effectiveness::Success), 2);
    assert_eq!(m.count_matching("missingIndex", Effectiveness::Consistent), 1);
    assert_eq!(m.count_matching("missingIndex", Effectiveness::Failure), 0);
    assert_eq!(m.count_matching("extraIndex", Effectiveness::Failure), 1);
    assert_eq!(m.count_matching("extraIndex", Effectiveness::OtherError), 1);
    assert_eq!(m.count_matching("corruptIndexKey", Effectiveness::Success), 0);
}

#[test]
fn aggregate_produces_one_row_per_injection() {
    let mut m = ResultMap::new();
    assert!(m.insert(entry("t0", "missingIndex", Effectiveness::Success)));
    assert!(m.insert(entry("t1", "missingIndex", Effectiveness::Failure)));
    assert!(m.insert(entry("t0", "corruptIndexValue", Effectiveness::Consistent)));
    let rows = aggregate(&m);
    assert_eq!(rows.len(), 4);
    assert_eq!(rows[0].injection, "extraIndex");
    assert_eq!(rows[1].injection, "missingIndex");
    assert_eq!(rows[2].injection, "corruptIndexKey");
    assert_eq!(rows[3].injection, "corruptIndexValue");
    assert_eq!(rows[1].success, 1);
    assert_eq!(rows[1].failure, 1);
    assert_eq!(rows[1].other_error, 0);
    assert_eq!(rows[1].consistent, 0);
    assert_eq!(rows[3].consistent, 1);
    assert_eq!(rows[0].success + rows[0].other_error + rows[0].failure + rows[0].consistent, 0);
}

#[test]
fn empty_map_aggregates_to_zero_rows_of_zeroes() {
    let m = ResultMap::new();
    assert_eq!(m.len(), 0);
    let rows = aggregate(&m);
    assert_eq!(rows.len(), 4);
    for row in &rows {
        assert_eq!(row.success, 0);
        assert_eq!(row.other_error, 0);
        assert_eq!(row.failure, 0);
        assert_eq!(row.consistent, 0);
    }
}
