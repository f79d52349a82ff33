use papiauditor::pipeline::run_audit_pipeline;
use papiauditor::rng::AuditRng;

#[test]
fn seeded_sources_hand_out_the_same_stream() {
    let mut a = AuditRng::from_seed(9);
    let mut b = AuditRng::from_seed(9);
    for _ in 0..100 {
        assert_eq!(a.next_between(0, 1_000_000), b.next_between(0, 1_000_000));
        assert_eq!(a.next_word(), b.next_word());
    }
}

#[test]
fn drawn_values_stay_in_range() {
    let mut rng = AuditRng::from_seed(13);
    for _ in 0..1000 {
        let v = rng.next_between(50, 200);
        assert!(v >= 50 && v < 200);
    }
    // A one-value range admits only that value.
    for _ in 0..50 {
        assert_eq!(rng.next_between(5, 6), 5);
    }
}

#[test]
fn drawn_values_actually_vary() {
    let mut rng = AuditRng::from_seed(17);
    let first = rng.next_between(0, 1_000_000);
    let mut saw_other = false;
    for _ in 0..100 {
        if rng.next_between(0, 1_000_000) != first {
            saw_other = true;
        }
    }
    assert!(saw_other);
    let w = rng.next_word();
    let mut word_varies = false;
    for _ in 0..10 {
        if rng.next_word() != w {
            word_varies = true;
        }
    }
    assert!(word_varies);
}

#[test]
fn sequential_pipeline_accounts_for_every_event() {
    let mut rng = AuditRng::from_seed(99);
    let view = run_audit_pipeline(300, 4, 100, &mut rng, 0);
    assert_eq!(view.total_processed + view.errors, 300);
    assert_eq!(
        view.total_processed,
        view.logs_processed + view.financial_processed + view.code_processed
    );
    let s = view.priority_stats;
    assert_eq!(view.total_processed, s.low + s.medium + s.high + s.critical);
}

#[test]
fn sequential_pipeline_with_no_error_injection() {
    let mut rng = AuditRng::from_seed(7);
    let view = run_audit_pipeline(250, 16, 0, &mut rng, 4);
    assert_eq!(view.total_processed, 250);
    assert_eq!(view.errors, 0);
    assert_eq!(view.processing_times_micros.len(), 250);
}
