use corrupttest::classify::{classify, contains_ci, TrialResult};
use corrupttest::Effectiveness;

#[test]
fn failure_text_with_inconsistency_is_a_write_time_catch() {
    let r = TrialResult::Failed {
        error: "Error 8133: data inconsistency in table t0".to_owned(),
    };
    assert_eq!(classify(&r), Effectiveness::Success);
}

#[test]
fn failure_text_with_assertion_is_a_write_time_catch() {
    let r = TrialResult::Failed {
        error: "Assertion failed on key k1".to_owned(),
    };
    assert_eq!(classify(&r), Effectiveness::Success);
}

#[test]
fn matching_is_case_insensitive() {
    let r = TrialResult::Failed {
        error: "INCONSISTENT index entries".to_owned(),
    };
    assert_eq!(classify(&r), Effectiveness::Success);
}

#[test]
fn unrelated_failure_is_another_error() {
    let r = TrialResult::Failed { error: "Duplicate entry '10'".to_owned() };
    assert_eq!(classify(&r), Effectiveness::OtherError);
}

#[test]
fn success_with_clean_recheck_is_consistent() {
    let r = TrialResult::Succeeded { check_ok: true };
    assert_eq!(classify(&r), Effectiveness::Consistent);
}

#[test]
fn success_with_failing_recheck_is_a_late_catch() {
    let r = TrialResult::Succeeded { check_ok: false };
    assert_eq!(classify(&r), Effectiveness::Failure);
}

#[test]
fn classifier_is_deterministic() {
    // Identical inputs always classify identically.
    for text in ["inconsistent", "assertion", "timeout", ""] {
        let a = TrialResult::Failed { error: text.to_owned() };
        let b = TrialResult::Failed { error: text.to_owned() };
        assert_eq!(classify(&a), classify(&b));
    }
    for check_ok in [true, false] {
        let a = TrialResult::Succeeded { check_ok };
        let b = TrialResult::Succeeded { check_ok };
        assert_eq!(classify(&a), classify(&b));
    }
}

#[test]
fn contains_ci_folds_the_haystack_only() {
    assert!(contains_ci("An InConSistent state", "inconsist"));
    assert!(contains_ci("assertion", "assertion"));
    assert!(contains_ci("xassertionx", "assertion"));
    assert!(!contains_ci("consistent hashing", "inconsist"));
    assert!(!contains_ci("", "assertion"));
    assert!(contains_ci("anything", ""));
}
