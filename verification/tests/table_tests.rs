use corrupttest::enumerate::TableEnumerator;
use corrupttest::table::{
    u64_dec, Collation, Column, ColumnType, Index, IndexColumn, Table, Uniqueness,
};

fn plain_index(name: &str, first: &str, second: &str) -> Index {
    Index {
        name: name.to_owned(),
        columns: vec![
            IndexColumn { name: first.to_owned(), length: None },
            IndexColumn { name: second.to_owned(), length: None },
        ],
        unique: Uniqueness::NonUnique,
    }
}

fn int_int_table(name: &str) -> Table {
    Table {
        name: name.to_owned(),
        cols: vec![
            Column { name: "c1".to_owned(), column_type: ColumnType::Int },
            Column { name: "c2".to_owned(), column_type: ColumnType::Int },
        ],
        indices: vec![plain_index("i1", "c1", "c2"), plain_index("i2", "c2", "c1")],
    }
}

fn int_str_table(name: &str) -> Table {
    Table {
        name: name.to_owned(),
        cols: vec![
            Column { name: "c1".to_owned(), column_type: ColumnType::Int },
            Column { name: "c2".to_owned(), column_type: ColumnType::Varchar(None) },
        ],
        indices: vec![plain_index("i1", "c1", "c2"), plain_index("i2", "c2", "c1")],
    }
}

#[test]
fn generate_table() {
    let mut tables = TableEnumerator::new();
    let mut cnt = 0;
    while let Some(t) = tables.next() {
        if t.constraint_satisfied() {
            println!("{}", t.create_statement());
            cnt += 1;
        }
    }
    println!("{}", cnt);
}

#[test]
fn enumerator_space_size() {
    let mut tables = TableEnumerator::new();
    let mut cnt = 0u64;
    while tables.next().is_some() {
        cnt += 1;
    }
    assert_eq!(cnt, 3468);
}

#[test]
fn enumerator_first_table() {
    let mut tables = TableEnumerator::new();
    let t = tables.next().expect("the space is not empty");
    assert_eq!(t.name, "t0");
    assert_eq!(
        t.create_statement(),
        "CREATE TABLE t0 (c1 INT, c2 INT,  KEY i1 (c1, c2),  KEY i2 (c2, c1))"
    );
    assert_eq!(t.drop_statement(), "DROP TABLE IF EXISTS t0");
}

#[test]
fn enumerator_structural_invariants() {
    // Every yielded table: two columns, two indices, two index columns
    // each, every index column naming a declared column.
    let mut tables = TableEnumerator::new();
    while let Some(t) = tables.next() {
        assert_eq!(t.cols.len(), 2);
        assert_eq!(t.indices.len(), 2);
        for ix in &t.indices {
            assert_eq!(ix.columns.len(), 2);
            for ic in &ix.columns {
                assert!(t.cols.iter().any(|c| c.name == ic.name));
            }
        }
        assert!(t.constraint_satisfied());
    }
}

#[test]
fn enumerator_no_prefix_on_int() {
    let mut tables = TableEnumerator::new();
    while let Some(t) = tables.next() {
        for ix in &t.indices {
            for ic in &ix.columns {
                if ic.length.is_some() {
                    let col = t.cols.iter().find(|c| c.name == ic.name).unwrap();
                    assert!(matches!(col.column_type, ColumnType::Varchar(_)));
                }
            }
        }
    }
}

#[test]
fn enumerator_at_most_one_primary() {
    let mut tables = TableEnumerator::new();
    while let Some(t) = tables.next() {
        let primaries = t.indices.iter().filter(|ix| ix.unique.is_primary()).count();
        assert!(primaries <= 1);
    }
}

#[test]
fn enumerator_fixed_column_orders() {
    let mut tables = TableEnumerator::new();
    while let Some(t) = tables.next() {
        assert_eq!(t.indices[0].columns[0].name, "c1");
        assert_eq!(t.indices[0].columns[1].name, "c2");
        assert_eq!(t.indices[1].columns[0].name, "c2");
        assert_eq!(t.indices[1].columns[1].name, "c1");
        assert!(t.optimized());
    }
}

#[test]
fn enumerator_is_reproducible() {
    let mut a = TableEnumerator::new();
    let mut b = TableEnumerator::new();
    for _ in 0..50 {
        match (a.next(), b.next()) {
            (Some(x), Some(y)) => {
                assert_eq!(x.create_statement(), y.create_statement());
                assert_eq!(x.name, y.name);
            }
            (None, None) => break,
            _ => panic!("the two walks diverged"),
        }
    }
}

#[test]
fn enumerator_names_are_sequential() {
    let mut tables = TableEnumerator::new();
    let mut expected = 0u64;
    while let Some(t) = tables.next() {
        assert_eq!(t.name, format!("t{}", expected));
        expected += 1;
    }
}

#[test]
fn create_statement_with_collation_prefix_and_primary() {
    let t = Table {
        name: "t7".to_owned(),
        cols: vec![
            Column {
                name: "c1".to_owned(),
                column_type: ColumnType::Varchar(Some(Collation::Bin)),
            },
            Column { name: "c2".to_owned(), column_type: ColumnType::Varchar(None) },
        ],
        indices: vec![
            Index {
                name: "i1".to_owned(),
                columns: vec![
                    IndexColumn { name: "c1".to_owned(), length: Some(3) },
                    IndexColumn { name: "c2".to_owned(), length: None },
                ],
                unique: Uniqueness::ClusteredPrimary,
            },
            Index {
                name: "i2".to_owned(),
                columns: vec![
                    IndexColumn { name: "c2".to_owned(), length: None },
                    IndexColumn { name: "c1".to_owned(), length: Some(3) },
                ],
                unique: Uniqueness::Unique,
            },
        ],
    };
    assert_eq!(
        t.create_statement(),
        "CREATE TABLE t7 (c1 VARCHAR(10) COLLATE utf8mb4_bin, c2 VARCHAR(10), \
         PRIMARY KEY i1 (c1(3), c2) CLUSTERED, UNIQUE KEY i2 (c2, c1(3)))"
    );
}

#[test]
fn row_successor_increments_ints() {
    let t = int_int_table("ti");
    let row = t.new_row();
    assert_eq!(row.to_string(), "10,10");
    let next = row.next();
    assert_eq!(next.to_string(), "11,11");
    let third = next.next();
    assert_eq!(third.to_string(), "12,12");
}

#[test]
fn row_successor_marks_strings() {
    let t = int_str_table("ts");
    let row = t.new_row();
    let before = row.to_string();
    assert_eq!(before, "10,'hello'");
    let next = row.next();
    assert_eq!(next.to_string(), "11,'hello x'");
    assert_ne!(before, next.to_string());
}

#[test]
fn uniqueness_primary_kinds() {
    assert!(!Uniqueness::NonUnique.is_primary());
    assert!(!Uniqueness::Unique.is_primary());
    assert!(Uniqueness::ClusteredPrimary.is_primary());
    assert!(Uniqueness::NonClusteredPrimary.is_primary());
}

#[test]
fn decimal_rendering() {
    assert_eq!(u64_dec(0), "0");
    assert_eq!(u64_dec(7), "7");
    assert_eq!(u64_dec(10), "10");
    assert_eq!(u64_dec(3468), "3468");
    assert_eq!(u64_dec(18446744073709551615), "18446744073709551615");
}
