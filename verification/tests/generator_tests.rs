use papiauditor::event::{AuditPriority, AuditType};
use papiauditor::generator::{generate_high_frequency_audits, generate_test_audits};
use papiauditor::rng::AuditRng;

fn variant_counts(batch: &[AuditType]) -> (usize, usize, usize) {
    let mut logs = 0;
    let mut financial = 0;
    let mut code = 0;
    for a in batch {
        match a {
            AuditType::Log { .. } => logs += 1,
            AuditType::Financial { .. } => financial += 1,
            AuditType::CodeAnalysis { .. } => code += 1,
        }
    }
    (logs, financial, code)
}

#[test]
fn generation_yields_requested_count() {
    let mut rng = AuditRng::from_seed(1);
    for count in [0usize, 1, 10, 250] {
        let batch = generate_high_frequency_audits(count, &mut rng, 5);
        assert_eq!(batch.len(), count);
    }
}

#[test]
fn generation_is_reproducible_with_same_seed() {
    let mut rng_a = AuditRng::from_seed(42);
    let mut rng_b = AuditRng::from_seed(42);
    let batch_a = generate_high_frequency_audits(200, &mut rng_a, 9);
    let batch_b = generate_high_frequency_audits(200, &mut rng_b, 9);
    assert_eq!(batch_a, batch_b);
    let (l_a, f_a, c_a) = variant_counts(&batch_a);
    let (l_b, f_b, c_b) = variant_counts(&batch_b);
    assert_eq!((l_a, f_a, c_a), (l_b, f_b, c_b));
    let crit_a = batch_a.iter().filter(|a| a.priority() == AuditPriority::Critical).count();
    let crit_b = batch_b.iter().filter(|a| a.priority() == AuditPriority::Critical).count();
    assert_eq!(crit_a, crit_b);
}

#[test]
fn generated_fields_stay_in_their_ranges() {
    let mut rng = AuditRng::from_seed(3);
    let batch = generate_high_frequency_audits(300, &mut rng, 17);
    for a in &batch {
        let m = a.metadata();
        assert_eq!(m.timestamp_micros, 17);
        assert!(m.source.starts_with("source_"));
        assert!(m.trace_id.starts_with("trace-"));
        assert_eq!(m.trace_id.len(), 22);
        match a {
            AuditType::Log { message, .. } => {
                assert!(message.starts_with("LOG: Evento masivo #"));
            }
            AuditType::Financial { amount_cents, currency, tx_id, .. } => {
                assert!(*amount_cents >= 10000 && *amount_cents < 1000000);
                assert!(currency == "USD" || currency == "EUR" || currency == "GBP");
                assert!(tx_id.starts_with("TX-"));
                assert_eq!(tx_id.len(), 11);
            }
            AuditType::CodeAnalysis { file, issues_found, .. } => {
                assert!(*issues_found < 50);
                assert!(file.starts_with("file_"));
                assert!(file.ends_with(".rs"));
            }
        }
    }
}

#[test]
fn different_seeds_differ() {
    let mut rng_a = AuditRng::from_seed(1);
    let mut rng_b = AuditRng::from_seed(2);
    let batch_a = generate_high_frequency_audits(50, &mut rng_a, 0);
    let batch_b = generate_high_frequency_audits(50, &mut rng_b, 0);
    assert_ne!(batch_a, batch_b);
}

#[test]
fn test_audits_have_exact_fields() {
    let batch = generate_test_audits(7, 123);
    assert_eq!(batch.len(), 7);
    match &batch[0] {
        AuditType::Log { message, metadata } => {
            assert_eq!(message, "LOG: Evento de prueba #0");
            assert_eq!(metadata.priority, AuditPriority::Low);
            assert_eq!(metadata.source, "source_0");
            assert_eq!(metadata.timestamp_micros, 123);
        }
        _ => panic!("index 0 must be a log event"),
    }
    match &batch[1] {
        AuditType::Financial { amount_cents, currency, tx_id, metadata } => {
            assert_eq!(*amount_cents, 110000);
            assert_eq!(currency, "USD");
            assert_eq!(tx_id, "TX-0001");
            assert_eq!(metadata.priority, AuditPriority::Medium);
        }
        _ => panic!("index 1 must be a financial event"),
    }
    match &batch[2] {
        AuditType::CodeAnalysis { file, issues_found, metadata } => {
            assert_eq!(file, "file_2.rs");
            assert_eq!(*issues_found, 2);
            assert_eq!(metadata.priority, AuditPriority::High);
        }
        _ => panic!("index 2 must be a code-analysis event"),
    }
    match &batch[4] {
        AuditType::Financial { amount_cents, tx_id, metadata, .. } => {
            assert_eq!(*amount_cents, 140000);
            assert_eq!(tx_id, "TX-0004");
            assert_eq!(metadata.priority, AuditPriority::Low);
        }
        _ => panic!("index 4 must be a financial event"),
    }
    match &batch[5] {
        AuditType::CodeAnalysis { file, issues_found, metadata } => {
            assert_eq!(file, "file_5.rs");
            assert_eq!(*issues_found, 5);
            assert_eq!(metadata.priority, AuditPriority::Medium);
        }
        _ => panic!("index 5 must be a code-analysis event"),
    }
    let again = generate_test_audits(7, 123);
    assert_eq!(batch, again);
}
