use papiauditor::harness::LoadTestHarness;

#[test]
fn report_partitions_every_outcome() {
    let h = LoadTestHarness::new(2_000_000);
    let outcomes = vec![true, true, false, true, false];
    let report = h.report(&outcomes, 2_500_000);
    assert_eq!(report.total_ops, 5);
    assert_eq!(report.successful_ops, 3);
    assert_eq!(report.failed_ops, 2);
    assert_eq!(report.total_ops, report.successful_ops + report.failed_ops);
    assert_eq!(report.actual_elapsed_micros, 2_500_000);
    // Five operations in two and a half seconds: two thousand
    // milli-operations a second.
    assert_eq!(report.throughput_milli_ops, 2_000);
}

#[test]
fn report_on_no_outcomes() {
    let h = LoadTestHarness::new(1_000_000);
    let outcomes: Vec<bool> = Vec::new();
    let report = h.report(&outcomes, 1_000_000);
    assert_eq!(report.total_ops, 0);
    assert_eq!(report.successful_ops, 0);
    assert_eq!(report.failed_ops, 0);
    assert_eq!(report.throughput_milli_ops, 0);
}

#[test]
fn stop_decision_is_exact_at_the_deadline() {
    let h = LoadTestHarness::new(100);
    assert!(!h.should_stop(0));
    assert!(!h.should_stop(99));
    assert!(h.should_stop(100));
    assert!(h.should_stop(101));
}

#[test]
fn pause_comes_after_every_thousandth_task() {
    let mut h = LoadTestHarness::new(1_000_000);
    assert!(!h.should_pause());
    for _ in 0..999 {
        h.record_spawn();
        assert!(!h.should_pause());
    }
    h.record_spawn();
    assert!(h.should_pause());
    h.record_spawn();
    assert!(!h.should_pause());
}
