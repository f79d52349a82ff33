use papiauditor::event::AuditType;
use papiauditor::generator::{generate_high_frequency_audits, generate_test_audits};
use papiauditor::rng::AuditRng;
use papiauditor::aggregator::Aggregator;
use papiauditor::worker::{
    code_analysis_units, draw_error, error_for_draw, financial_duration_micros,
    simulated_duration_micros, Auditor, WorkerPool,
};

#[test]
fn code_analysis_cost_is_proportional() {
    assert_eq!(code_analysis_units(0), 0);
    assert_eq!(code_analysis_units(1), 49_995_000);
    assert_eq!(code_analysis_units(2), 99_990_000);
    assert_eq!(code_analysis_units(49), 2_449_755_000);
}

#[test]
fn simulated_durations_follow_the_profile() {
    let mut rng = AuditRng::from_seed(5);
    let batch = generate_test_audits(30, 0);
    for audit in &batch {
        let d = simulated_duration_micros(audit, &mut rng);
        match audit {
            AuditType::Log { .. } => assert!(d >= 50 && d < 200),
            AuditType::Financial { .. } => {
                assert!(d >= 1000 && d < 5000);
                assert_eq!(d % 1000, 0);
            }
            AuditType::CodeAnalysis { issues_found, .. } => {
                assert_eq!(d, code_analysis_units(*issues_found) / 1000);
            }
        }
    }
}

#[test]
fn error_decision_fires_exactly_below_the_rate() {
    // The pipeline's one-percent rate: 100 of 10000.
    assert!(error_for_draw(0, 100).is_some());
    assert!(error_for_draw(99, 100).is_some());
    assert!(error_for_draw(100, 100).is_none());
    assert!(error_for_draw(9999, 100).is_none());
    assert_eq!(
        error_for_draw(50, 100).as_deref(),
        Some("Error de procesamiento simulado")
    );
    assert!(error_for_draw(0, 0).is_none());
    assert!(error_for_draw(9999, 10000).is_some());
}

#[test]
fn financial_duration_scales_the_draw() {
    assert_eq!(financial_duration_micros(1), 1000);
    assert_eq!(financial_duration_micros(4), 4000);
}

#[test]
fn error_draw_rate_bounds() {
    let mut rng = AuditRng::from_seed(8);
    for _ in 0..200 {
        assert!(draw_error(&mut rng, 0).is_none());
    }
    for _ in 0..200 {
        let e = draw_error(&mut rng, 10000);
        assert_eq!(e.as_deref(), Some("Error de procesamiento simulado"));
    }
}

#[test]
fn auditor_keeps_its_fields() {
    let a = Auditor::new(7, "WORKER-7", 100);
    assert_eq!(a.id, 7);
    assert_eq!(a.name, "WORKER-7");
    assert_eq!(a.worker_pool_size, 100);
}

#[test]
fn default_pool_has_at_least_one_worker() {
    let mut pool = WorkerPool::with_default_size(0);
    assert!(pool.size() >= 1);
    let mut rng = AuditRng::from_seed(2);
    let batch = generate_test_audits(3, 0);
    for audit in batch {
        let idx = pool.submit(audit, &mut rng);
        assert!(idx < pool.size());
    }
    assert_eq!(pool.results().len(), 3);
}

#[test]
fn submit_assigns_round_robin() {
    let mut pool = WorkerPool::new(4, 0);
    let mut rng = AuditRng::from_seed(11);
    let batch = generate_test_audits(10, 0);
    let mut indices = Vec::new();
    for audit in batch {
        indices.push(pool.submit(audit, &mut rng));
    }
    assert_eq!(indices, vec![0, 1, 2, 3, 0, 1, 2, 3, 0, 1]);
}

#[test]
fn batch_yields_one_result_per_event_whatever_the_pool_size() {
    for pool_size in [1usize, 4, 16] {
        let events = generate_test_audits(500, 0);
        let expected = generate_test_audits(500, 0);
        let mut pool = WorkerPool::new(pool_size, 100);
        let mut rng = AuditRng::from_seed(21);
        pool.process_batch(events, &mut rng);
        let results = pool.take_results();
        assert_eq!(results.len(), 500);
        for (i, r) in results.iter().enumerate() {
            assert_eq!(r.audit, expected[i]);
        }
        assert_eq!(pool.results().len(), 0);
    }
}

#[test]
fn zero_rate_batch_is_error_free() {
    let events = generate_test_audits(100, 0);
    let mut pool = WorkerPool::new(3, 0);
    let mut rng = AuditRng::from_seed(33);
    pool.process_batch(events, &mut rng);
    let results = pool.take_results();
    assert_eq!(results.len(), 100);
    assert!(results.iter().all(|r| r.error.is_none()));
}

#[test]
fn seeded_scenario_reports_ten_processed_and_no_errors() {
    let mut rng = AuditRng::from_seed(42);
    let events = generate_high_frequency_audits(10, &mut rng, 0);
    let mut pool = WorkerPool::new(1, 0);
    pool.process_batch(events, &mut rng);
    let results = pool.take_results();
    assert_eq!(results.len(), 10);
    let mut agg = Aggregator::new();
    agg.drain(&results);
    let view = agg.snapshot();
    assert_eq!(view.total_processed, 10);
    assert_eq!(view.errors, 0);
}
