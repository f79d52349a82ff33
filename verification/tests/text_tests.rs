use papiauditor::event::AuditPriority;
use papiauditor::text::{u64_to_decimal, u64_to_decimal_min4, u64_to_hex_fixed};

#[test]
fn decimal_renders_exactly() {
    assert_eq!(u64_to_decimal(0), "0");
    assert_eq!(u64_to_decimal(7), "7");
    assert_eq!(u64_to_decimal(10), "10");
    assert_eq!(u64_to_decimal(1234), "1234");
    assert_eq!(u64_to_decimal(18446744073709551615), "18446744073709551615");
}

#[test]
fn hex_renders_fixed_width() {
    assert_eq!(u64_to_hex_fixed(0xdeadbeef, 8), "deadbeef");
    assert_eq!(u64_to_hex_fixed(0xdeadbeef, 16), "00000000deadbeef");
    assert_eq!(u64_to_hex_fixed(0, 4), "0000");
    assert_eq!(u64_to_hex_fixed(0xabc, 2), "bc");
}

#[test]
fn decimal_min4_pads_with_zeros() {
    assert_eq!(u64_to_decimal_min4(0), "0000");
    assert_eq!(u64_to_decimal_min4(7), "0007");
    assert_eq!(u64_to_decimal_min4(42), "0042");
    assert_eq!(u64_to_decimal_min4(999), "0999");
    assert_eq!(u64_to_decimal_min4(1000), "1000");
    assert_eq!(u64_to_decimal_min4(123456), "123456");
}

#[test]
fn priority_labels() {
    assert_eq!(AuditPriority::Low.as_str(), "BAJA");
    assert_eq!(AuditPriority::Medium.as_str(), "MEDIA");
    assert_eq!(AuditPriority::High.as_str(), "ALTA");
    assert_eq!(AuditPriority::Critical.as_str(), "CRÍTICA");
}

#[test]
fn priority_from_index_cycles() {
    assert_eq!(AuditPriority::from_index(0), AuditPriority::Low);
    assert_eq!(AuditPriority::from_index(1), AuditPriority::Medium);
    assert_eq!(AuditPriority::from_index(2), AuditPriority::High);
    assert_eq!(AuditPriority::from_index(3), AuditPriority::Critical);
    assert_eq!(AuditPriority::from_index(4), AuditPriority::Low);
    assert_eq!(AuditPriority::from_index(7), AuditPriority::Critical);
}
