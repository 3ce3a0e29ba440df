use corrupttest::failpoint::{
    corrupt_mutations_failpoint, failpoint_call_outcome, failpoint_url, first_only_directive,
    return_directive, RunMetrics,
};

#[test]
fn failpoint_control_url() {
    assert_eq!(
        failpoint_url("127.0.0.1:10080", "github.com/pingcap/tidb/table/tables/corruptMutations"),
        "http://127.0.0.1:10080/fail/github.com/pingcap/tidb/table/tables/corruptMutations"
    );
    assert_eq!(
        corrupt_mutations_failpoint(),
        "github.com/pingcap/tidb/table/tables/corruptMutations"
    );
}

#[test]
fn directives_wrap_the_injection_name() {
    assert_eq!(return_directive("missingIndex"), "return(\"missingIndex\")");
    assert_eq!(first_only_directive("missingIndex"), "1*return(\"missingIndex\")");
}

#[test]
fn enable_against_failing_endpoint_carries_the_body() {
    // A mock endpoint answering HTTP 500 with body "boom": the error text
    // contains "boom".
    let outcome = failpoint_call_outcome(500, "boom");
    let err = outcome.expect_err("a 500 response is an error");
    assert!(err.message().contains("boom"));
}

#[test]
fn disable_twice_succeeds_both_times() {
    // Disabling an already-disabled point is not an error: the endpoint
    // answers 2xx both times and both calls succeed.
    assert!(failpoint_call_outcome(200, "").is_ok());
    assert!(failpoint_call_outcome(200, "").is_ok());
}

#[test]
fn only_2xx_statuses_succeed() {
    assert!(failpoint_call_outcome(200, "").is_ok());
    assert!(failpoint_call_outcome(204, "").is_ok());
    assert!(failpoint_call_outcome(299, "").is_ok());
    assert!(failpoint_call_outcome(199, "x").is_err());
    assert!(failpoint_call_outcome(300, "x").is_err());
    assert!(failpoint_call_outcome(404, "not found").is_err());
}

#[test]
fn metrics_accumulate_and_saturate() {
    let mut m = RunMetrics::new();
    assert_eq!(m.failpoint_ms, 0);
    m.add_failpoint_ms(25);
    m.add_failpoint_ms(17);
    assert_eq!(m.failpoint_ms, 42);
    assert_eq!(m.create_table_ms, 0);
    m.add_create_table_ms(u64::MAX - 1);
    m.add_create_table_ms(100);
    assert_eq!(m.create_table_ms, u64::MAX);
    assert_eq!(m.failpoint_ms, 42);
}
