use corrupttest::table::{Column, ColumnType, Index, IndexColumn, Table, Uniqueness};
use corrupttest::workload::{
    find_workload, StepEvent, TableRun, Trial, TrialAction, TrialOutcome, WorkloadKind,
};
use corrupttest::Effectiveness;

fn plain_index(name: &str, first: &str, second: &str) -> Index {
    Index {
        name: name.to_owned(),
        columns: vec![
            IndexColumn { name: first.to_owned(), length: None },
            IndexColumn { name: second.to_owned(), length: None },
        ],
        unique: Uniqueness::NonUnique,
    }
}

fn int_str_table(name: &str) -> Table {
    Table {
        name: name.to_owned(),
        cols: vec![
            Column { name: "c1".to_owned(), column_type: ColumnType::Int },
            Column { name: "c2".to_owned(), column_type: ColumnType::Varchar(None) },
        ],
        indices: vec![plain_index("i1", "c1", "c2"), plain_index("i2", "c2", "c1")],
    }
}

fn expect_enable(t: &Trial) -> String {
    match t.next_action() {
        TrialAction::EnableFailpoint { value } => value,
        other => panic!("expected an enable action, got {:?}", other),
    }
}

fn expect_execute(t: &Trial) -> String {
    match t.next_action() {
        TrialAction::Execute { query } => query,
        other => panic!("expected an execute action, got {:?}", other),
    }
}

fn expect_disable(t: &Trial) {
    match t.next_action() {
        TrialAction::DisableFailpoint => {}
        other => panic!("expected a disable action, got {:?}", other),
    }
}

fn recorded_effectiveness(t: &Trial) -> Effectiveness {
    match t.outcome() {
        TrialOutcome::Recorded { effectiveness } => *effectiveness,
        other => panic!("expected a recorded outcome, got {:?}", other),
    }
}

#[test]
fn workload_registry() {
    assert_eq!(find_workload("single"), Some(WorkloadKind::SingleInsertion));
    assert_eq!(find_workload("double"), Some(WorkloadKind::DoubleInsertion));
    assert_eq!(find_workload("t2"), Some(WorkloadKind::T2));
    assert_eq!(find_workload("t3"), Some(WorkloadKind::T3));
    assert_eq!(find_workload("t4"), Some(WorkloadKind::T4));
    assert_eq!(find_workload("t5"), None);
    assert_eq!(find_workload(""), None);
}

// Walks a double-insertion trial up to the COMMIT, checking every
// statement on the way.
fn double_insertion_until_commit(table: &Table) -> Trial {
    let mut trial = Trial::new(&WorkloadKind::DoubleInsertion, table, "missingIndex");
    assert_eq!(expect_enable(&trial), "1*return(\"missingIndex\")");
    trial.step(StepEvent::Succeeded);
    assert_eq!(expect_execute(&trial), "BEGIN OPTIMISTIC");
    trial.step(StepEvent::Succeeded);
    assert_eq!(expect_execute(&trial), "INSERT INTO td VALUES (10,'hello')");
    trial.step(StepEvent::Succeeded);
    assert_eq!(expect_execute(&trial), "INSERT INTO td VALUES (11,'hello x')");
    trial.step(StepEvent::Succeeded);
    assert_eq!(expect_execute(&trial), "COMMIT");
    trial
}

#[test]
fn double_insertion_commit_caught_at_write_time() {
    // The mutation checker is on: COMMIT fails with an
    // inconsistency-bearing error, which classifies as a write-time catch.
    let table = int_str_table("td");
    let mut trial = double_insertion_until_commit(&table);
    trial.step(StepEvent::Failed {
        error: "assertion failed: Inconsistent mutations found".to_owned(),
    });
    assert_eq!(expect_execute(&trial), "ROLLBACK");
    trial.step(StepEvent::Succeeded);
    expect_disable(&trial);
    trial.step(StepEvent::Succeeded);
    assert!(trial.is_done());
    assert_eq!(recorded_effectiveness(&trial), Effectiveness::Success);
}

#[test]
fn double_insertion_commit_caught_by_recheck() {
    // The mutation checker is off: COMMIT succeeds and the structural scan
    // reports the corruption afterwards.
    let table = int_str_table("td");
    let mut trial = double_insertion_until_commit(&table);
    trial.step(StepEvent::Succeeded);
    assert_eq!(expect_execute(&trial), "admin check table td");
    trial.step(StepEvent::Failed { error: "inconsistent index td.i1".to_owned() });
    expect_disable(&trial);
    trial.step(StepEvent::Succeeded);
    assert!(trial.is_done());
    assert_eq!(recorded_effectiveness(&trial), Effectiveness::Failure);
}

#[test]
fn double_insertion_commit_no_observable_effect() {
    let table = int_str_table("td");
    let mut trial = double_insertion_until_commit(&table);
    trial.step(StepEvent::Succeeded);
    assert_eq!(expect_execute(&trial), "admin check table td");
    trial.step(StepEvent::Succeeded);
    expect_disable(&trial);
    trial.step(StepEvent::Succeeded);
    assert!(trial.is_done());
    assert_eq!(recorded_effectiveness(&trial), Effectiveness::Consistent);
}

#[test]
fn single_insertion_plan_and_no_rollback() {
    let table = int_str_table("td");
    let mut trial = Trial::new(&WorkloadKind::SingleInsertion, &table, "extraIndex");
    assert_eq!(expect_enable(&trial), "return(\"extraIndex\")");
    trial.step(StepEvent::Succeeded);
    assert_eq!(expect_execute(&trial), "insert into td values (10,'hello')");
    // A failure outside an explicit transaction goes straight to
    // classification, with no rollback in between.
    trial.step(StepEvent::Failed { error: "Duplicate entry".to_owned() });
    expect_disable(&trial);
    trial.step(StepEvent::Succeeded);
    assert!(trial.is_done());
    assert_eq!(recorded_effectiveness(&trial), Effectiveness::OtherError);
}

#[test]
fn t2_statement_sequence() {
    let table = int_str_table("td");
    let mut trial = Trial::new(&WorkloadKind::T2, &table, "corruptIndexKey");
    assert_eq!(expect_enable(&trial), "1*return(\"corruptIndexKey\")");
    trial.step(StepEvent::Succeeded);
    let expected = [
        "begin optimistic",
        "INSERT INTO td VALUES (10,'hello')",
        "commit",
        "begin optimistic",
        "UPDATE td SET c1 = 11 WHERE c2 = hello",
        "commit",
    ];
    for stmt in expected {
        assert_eq!(expect_execute(&trial), stmt);
        trial.step(StepEvent::Succeeded);
    }
    assert_eq!(expect_execute(&trial), "admin check table td");
}

#[test]
fn t3_adds_a_delete() {
    let table = int_str_table("td");
    let mut trial = Trial::new(&WorkloadKind::T3, &table, "corruptIndexValue");
    assert_eq!(expect_enable(&trial), "1*return(\"corruptIndexValue\")");
    trial.step(StepEvent::Succeeded);
    let expected = [
        "begin optimistic",
        "INSERT INTO td VALUES (10,'hello')",
        "commit",
        "begin optimistic",
        "UPDATE td SET c1 = 11 WHERE c2 = hello",
        "DELETE FROM td WHERE c1 = hello",
        "commit",
    ];
    for stmt in expected {
        assert_eq!(expect_execute(&trial), stmt);
        trial.step(StepEvent::Succeeded);
    }
    assert_eq!(expect_execute(&trial), "admin check table td");
}

#[test]
fn t4_enables_failpoint_inside_second_transaction() {
    let table = int_str_table("td");
    let mut trial = Trial::new(&WorkloadKind::T4, &table, "missingIndex");
    for stmt in ["begin optimistic", "INSERT INTO td VALUES (10,'hello')", "commit",
        "begin optimistic"] {
        assert_eq!(expect_execute(&trial), stmt);
        trial.step(StepEvent::Succeeded);
    }
    assert_eq!(expect_enable(&trial), "1*return(\"missingIndex\")");
    trial.step(StepEvent::Succeeded);
    assert_eq!(expect_execute(&trial), "UPDATE td SET c1 = 11 WHERE c2 = hello");
}

#[test]
fn trial_enable_failure_is_a_fault() {
    let table = int_str_table("td");
    let mut trial = Trial::new(&WorkloadKind::DoubleInsertion, &table, "missingIndex");
    assert_eq!(expect_enable(&trial), "1*return(\"missingIndex\")");
    trial.step(StepEvent::Failed { error: "connection refused".to_owned() });
    assert!(trial.is_done());
    match trial.outcome() {
        TrialOutcome::Fault { error } => {
            assert_eq!(error.message(), "connection refused");
        }
        other => panic!("expected a fault, got {:?}", other),
    }
}

#[test]
fn t2_statement_failure_rolls_back_then_classifies() {
    let table = int_str_table("td");
    let mut trial = Trial::new(&WorkloadKind::T2, &table, "extraIndex");
    trial.step(StepEvent::Succeeded);
    assert_eq!(expect_execute(&trial), "begin optimistic");
    trial.step(StepEvent::Succeeded);
    trial.step(StepEvent::Failed { error: "server has gone away".to_owned() });
    assert_eq!(expect_execute(&trial), "rollback");
    trial.step(StepEvent::Succeeded);
    expect_disable(&trial);
    trial.step(StepEvent::Succeeded);
    assert_eq!(recorded_effectiveness(&trial), Effectiveness::OtherError);
}

#[test]
fn rollback_failure_ends_the_trial_with_a_fault() {
    let table = int_str_table("td");
    let mut trial = Trial::new(&WorkloadKind::DoubleInsertion, &table, "extraIndex");
    trial.step(StepEvent::Succeeded);
    assert_eq!(expect_execute(&trial), "BEGIN OPTIMISTIC");
    trial.step(StepEvent::Failed { error: "lock wait timeout".to_owned() });
    assert_eq!(expect_execute(&trial), "ROLLBACK");
    trial.step(StepEvent::Failed { error: "connection reset".to_owned() });
    assert!(trial.is_done());
    match trial.outcome() {
        TrialOutcome::Fault { error } => {
            assert_eq!(error.message(), "connection reset");
        }
        other => panic!("expected a fault, got {:?}", other),
    }
}

fn run_action(run: &TableRun) -> TrialAction {
    run.next_action()
}

#[test]
fn table_run_full_walk() {
    let table = int_str_table("tr");
    let mut run = TableRun::new(&WorkloadKind::SingleInsertion, table, "true", "strict");
    let mut executed: Vec<String> = Vec::new();
    let mut enabled: Vec<String> = Vec::new();
    let mut disables = 0;
    loop {
        match run_action(&run) {
            TrialAction::Execute { query } => executed.push(query),
            TrialAction::EnableFailpoint { value } => enabled.push(value),
            TrialAction::DisableFailpoint => disables += 1,
            TrialAction::Finished => break,
        }
        run.step(StepEvent::Succeeded);
    }
    assert_eq!(executed[0], "set @@tidb_enable_mutation_checker = true");
    assert_eq!(executed[1], "set @@tidb_txn_assertion_level = strict");
    assert_eq!(executed[2], "DROP TABLE IF EXISTS tr");
    assert!(executed[3].starts_with("CREATE TABLE tr ("));
    // Per injection: the insert and the structural re-check.
    assert_eq!(executed.len(), 4 + 2 * 4);
    assert_eq!(
        enabled,
        vec![
            "return(\"extraIndex\")",
            "return(\"missingIndex\")",
            "return(\"corruptIndexKey\")",
            "return(\"corruptIndexValue\")",
        ]
    );
    assert_eq!(disables, 4);
    assert!(run.is_done());
    assert!(run.fatal().is_none());
    let records = run.records();
    assert_eq!(records.len(), 4);
    let keys: Vec<&str> = records.iter().map(|r| r.injection.as_str()).collect();
    assert_eq!(
        keys,
        vec!["extraIndex", "missingIndex", "corruptIndexKey", "corruptIndexValue"]
    );
    for r in records {
        assert_eq!(r.effectiveness, Effectiveness::Consistent);
    }
}

#[test]
fn table_run_ddl_failure_is_fatal() {
    let table = int_str_table("tr");
    let mut run = TableRun::new(&WorkloadKind::T2, table, "0", "off");
    run.step(StepEvent::Succeeded);
    run.step(StepEvent::Succeeded);
    run.step(StepEvent::Succeeded);
    // The CREATE fails: the run stops before any trial.
    run.step(StepEvent::Failed { error: "table limit exceeded".to_owned() });
    assert!(run.is_done());
    let fatal = run.fatal().expect("a DDL failure is fatal");
    assert_eq!(fatal.message(), "table limit exceeded");
    assert_eq!(run.records().len(), 0);
}

#[test]
fn table_run_create_and_drop_frame_the_injection_loop() {
    // CREATE/DROP appear once per table, not once per injection.
    let table = int_str_table("tf");
    let mut run = TableRun::new(&WorkloadKind::DoubleInsertion, table, "1", "fast");
    let mut creates = 0;
    let mut drops = 0;
    loop {
        match run_action(&run) {
            TrialAction::Execute { query } => {
                if query.starts_with("CREATE TABLE") {
                    creates += 1;
                }
                if query.starts_with("DROP TABLE") {
                    drops += 1;
                }
            }
            TrialAction::Finished => break,
            _ => {}
        }
        run.step(StepEvent::Succeeded);
    }
    assert_eq!(creates, 1);
    assert_eq!(drops, 1);
}
