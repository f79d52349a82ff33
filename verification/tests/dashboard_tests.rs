use papiauditor::aggregator::Aggregator;
use papiauditor::dashboard::AuditDashboard;
use papiauditor::event::{AuditPriority, AuditType, ProcessingResult};
use papiauditor::generator::generate_test_audits;
use papiauditor::stats::throughput_milli_ops;

fn results_from_test_audits(count: u32, duration_base: u64) -> Vec<ProcessingResult> {
    generate_test_audits(count, 0)
        .into_iter()
        .enumerate()
        .map(|(i, audit)| ProcessingResult {
            audit,
            duration_micros: duration_base + i as u64,
            error: None,
        })
        .collect()
}

#[test]
fn fresh_dashboard_is_zeroed() {
    let d = AuditDashboard::new();
    let view = d.snapshot();
    assert_eq!(view.total_processed, 0);
    assert_eq!(view.logs_processed, 0);
    assert_eq!(view.financial_processed, 0);
    assert_eq!(view.code_processed, 0);
    assert_eq!(view.errors, 0);
    assert_eq!(view.peak_throughput_milli_ops, 0);
    assert!(view.processing_times_micros.is_empty());
    assert!(view.avg_processing_micros.is_none());
    assert!(view.min_processing_micros.is_none());
    assert!(view.max_processing_micros.is_none());
}

#[test]
fn totals_balance_after_many_updates() {
    let mut agg = Aggregator::new();
    let results = results_from_test_audits(100, 1);
    for r in &results {
        agg.apply_at(r, 1_000_000);
    }
    let view = agg.snapshot_at(1_000_000);
    assert_eq!(
        view.total_processed,
        view.logs_processed + view.financial_processed + view.code_processed
    );
    let s = view.priority_stats;
    assert_eq!(view.total_processed, s.low + s.medium + s.high + s.critical);
}

#[test]
fn window_is_bounded_and_evicts_oldest_first() {
    let mut d = AuditDashboard::new();
    let audit = &generate_test_audits(1, 0)[0];
    for i in 0..10001u64 {
        d.update_at(audit, i + 1, 1_000_000);
    }
    let view = d.snapshot_at(1_000_000);
    assert_eq!(view.total_processed, 10001);
    assert_eq!(view.processing_times_micros.len(), 10000);
    // The first inserted duration, 1, must be gone; 2 is now the oldest.
    assert_eq!(view.processing_times_micros[0], 2);
    assert_eq!(view.min_processing_micros, Some(2));
    assert_eq!(view.max_processing_micros, Some(10001));
}

#[test]
fn peak_throughput_never_decreases() {
    let mut d = AuditDashboard::new();
    let audit = &generate_test_audits(1, 0)[0];
    let elapsed_readings =
        [1_000_000u64, 10_000_000, 100_000_000, 100, 200_000_000, 300_000_000];
    let mut last_peak = 0u64;
    for (i, e) in elapsed_readings.iter().enumerate() {
        d.update_at(audit, 10 + i as u64, *e);
        let view = d.snapshot_at(*e);
        assert!(view.peak_throughput_milli_ops >= last_peak);
        last_peak = view.peak_throughput_milli_ops;
    }
}

#[test]
fn update_then_snapshot_reflects_exactly_once() {
    let mut agg = Aggregator::new();
    let audit = generate_test_audits(1, 0).remove(0);
    let result = ProcessingResult { audit, duration_micros: 77, error: None };
    agg.apply_at(&result, 500_000);
    let view = agg.snapshot_at(500_000);
    assert_eq!(view.total_processed, 1);
    assert_eq!(view.logs_processed, 1);
    assert_eq!(view.financial_processed, 0);
    assert_eq!(view.code_processed, 0);
    assert_eq!(view.priority_stats.low, 1);
    assert_eq!(view.priority_stats.medium, 0);
    assert_eq!(view.errors, 0);
    assert_eq!(view.processing_times_micros, vec![77]);
    assert_eq!(view.avg_processing_micros, Some(77));
}

#[test]
fn thousand_results_snapshot_exactly() {
    let mut agg = Aggregator::new();
    let results = results_from_test_audits(1000, 1);
    for r in &results {
        agg.apply_at(r, 1_000_000);
    }
    let view = agg.snapshot_at(1_000_000);
    assert_eq!(view.total_processed, 1000);
    // Variants cycle with period three over the thousand indices.
    assert_eq!(view.logs_processed, 334);
    assert_eq!(view.financial_processed, 333);
    assert_eq!(view.code_processed, 333);
    // Priorities cycle with period four.
    assert_eq!(view.priority_stats.low, 250);
    assert_eq!(view.priority_stats.medium, 250);
    assert_eq!(view.priority_stats.high, 250);
    assert_eq!(view.priority_stats.critical, 250);
    assert_eq!(view.errors, 0);
    assert_eq!(view.processing_times_micros.len(), 1000);
    assert_eq!(view.min_processing_micros, Some(1));
    assert_eq!(view.max_processing_micros, Some(1000));
    assert_eq!(view.avg_processing_micros, Some(500));
    assert_eq!(view.elapsed_micros, 1_000_000);
    // A thousand events in one second: a million milli-operations a second.
    assert_eq!(view.throughput_now_milli_ops, 1_000_000);
    assert_eq!(view.peak_throughput_milli_ops, 1_000_000);
}

#[test]
fn erroneous_results_touch_only_the_error_counter() {
    let mut agg = Aggregator::new();
    let audit = generate_test_audits(1, 0).remove(0);
    let ok = ProcessingResult { audit: audit.clone(), duration_micros: 5, error: None };
    let failed = ProcessingResult {
        audit,
        duration_micros: 9,
        error: Some("Error de procesamiento simulado".to_string()),
    };
    agg.apply_at(&ok, 1_000_000);
    agg.apply_at(&failed, 1_000_000);
    agg.apply_at(&failed, 1_000_000);
    let view = agg.snapshot_at(1_000_000);
    assert_eq!(view.total_processed, 1);
    assert_eq!(view.errors, 2);
    assert_eq!(view.processing_times_micros, vec![5]);
}

#[test]
fn drain_matches_per_result_updates() {
    let mut results = results_from_test_audits(60, 3);
    results[10].error = Some("Error de procesamiento simulado".to_string());
    results[41].error = Some("Error de procesamiento simulado".to_string());
    let mut drained = Aggregator::new();
    drained.drain(&results);
    let view = drained.snapshot();
    assert_eq!(view.total_processed, 58);
    assert_eq!(view.errors, 2);
    assert_eq!(
        view.total_processed,
        view.logs_processed + view.financial_processed + view.code_processed
    );
}

#[test]
fn throughput_formula_is_exact() {
    // Ten operations in one second are ten thousand milli-operations a second.
    assert_eq!(throughput_milli_ops(10, 1_000_000), 10_000);
    // Before the clock advances the throughput reads zero.
    assert_eq!(throughput_milli_ops(10, 0), 0);
    // Half a second doubles the rate.
    assert_eq!(throughput_milli_ops(10, 500_000), 20_000);
    // Rounding is toward zero.
    assert_eq!(throughput_milli_ops(1, 3_000_000), 333);
    // The formula saturates instead of overflowing.
    assert_eq!(throughput_milli_ops(u64::MAX, 1), u64::MAX);
}

#[test]
fn priority_stats_lookup_matches_fields() {
    let mut agg = Aggregator::new();
    let results = results_from_test_audits(8, 1);
    for r in &results {
        agg.apply_at(r, 1_000_000);
    }
    let view = agg.snapshot_at(1_000_000);
    assert_eq!(view.priority_stats.get(AuditPriority::Low), view.priority_stats.low);
    assert_eq!(view.priority_stats.get(AuditPriority::Critical), view.priority_stats.critical);
    assert_eq!(view.priority_stats.low, 2);
    assert_eq!(view.priority_stats.medium, 2);
    assert_eq!(view.priority_stats.high, 2);
    assert_eq!(view.priority_stats.critical, 2);
}

#[test]
fn record_error_counts_against_update_path() {
    // An error-free result of each variant keeps the per-type counters in step.
    let mut agg = Aggregator::new();
    let batch = generate_test_audits(3, 0);
    for (i, audit) in batch.into_iter().enumerate() {
        let r = ProcessingResult { audit, duration_micros: i as u64 + 1, error: None };
        agg.apply_at(&r, 1_000_000);
    }
    let view = agg.snapshot_at(1_000_000);
    assert_eq!(view.total_processed, 3);
    assert_eq!(view.logs_processed, 1);
    assert_eq!(view.financial_processed, 1);
    assert_eq!(view.code_processed, 1);
    match view.processing_times_micros.as_slice() {
        [a, b, c] => {
            assert_eq!((*a, *b, *c), (1, 2, 3));
        }
        _ => panic!("window must hold the three durations in order"),
    }
}
