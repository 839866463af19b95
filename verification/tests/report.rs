//! Self-check bookkeeping.

use gonk::report::TestResults;

#[test]
fn fresh_results_are_empty_and_passing() {
    let r = TestResults::new();
    assert_eq!(r.total, 0);
    assert_eq!(r.passed, 0);
    assert_eq!(r.failed, 0);
    assert!(r.all_passed());
}

#[test]
fn checks_are_counted_by_outcome() {
    let mut r = TestResults::new();
    r.check(true);
    r.check(false);
    r.check(true);
    assert_eq!(r.total, 3);
    assert_eq!(r.passed, 2);
    assert_eq!(r.failed, 1);
    assert!(!r.all_passed());
}

#[test]
fn equality_checks_compare_values() {
    let mut r = TestResults::new();
    r.check_eq(41, 41);
    r.check_eq("a", "b");
    assert_eq!(r.total, 2);
    assert_eq!(r.passed, 1);
    assert_eq!(r.failed, 1);
}
