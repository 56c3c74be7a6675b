use sg_test::totals::{RunFailure, RunTotals};

#[test]
fn total_is_sum_of_failure_counts() {
    let mut t = RunTotals::new();
    for n in [0usize, 2, 0, 3] {
        t.record(n);
    }
    assert_eq!(t.total(), 5);
    assert_eq!(t.finish(), Err(RunFailure { failed: 5 }));
}

#[test]
fn run_without_failures_succeeds() {
    let mut t = RunTotals::new();
    assert_eq!(t.finish(), Ok(()));
    t.record(0);
    t.record(0);
    assert_eq!(t.total(), 0);
    assert_eq!(t.finish(), Ok(()));
}

#[test]
fn plural_suffix() {
    assert_eq!(RunFailure { failed: 1 }.plural_suffix(), "");
    assert_eq!(RunFailure { failed: 2 }.plural_suffix(), "s");
}
