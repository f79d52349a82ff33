//! Generators of synthetic audit events: a randomized high-frequency batch
//! generator and a deterministic batch generator whose every field is
//! pinned exactly.

use vstd::prelude::*;
use vstd::string::StringExecFns;
use crate::event::{AuditMetadata, AuditPriority, AuditType, index_priority};
use crate::rng::AuditRng;
use crate::text::{
    spec_decimal, spec_decimal_min4, spec_hex_fixed, u64_to_decimal, u64_to_decimal_min4,
    u64_to_hex_fixed,
};

verus! {

/// The trace identifier built from a random word.
pub open spec fn trace_id_chars(n: u64) -> Seq<char> {
    "trace-"@ + spec_hex_fixed(n as nat, 16)
}

/// The source label built from a bounded index.
pub open spec fn source_label_chars(k: u64) -> Seq<char> {
    "source_"@ + spec_decimal(k as nat)
}

/// The message of a randomized log event.
pub open spec fn log_message_chars(i: u64, n: u64) -> Seq<char> {
    "LOG: Evento masivo #"@ + spec_decimal(i as nat) + " - "@ + spec_decimal(n as nat)
}

/// The transaction identifier built from a random word.
pub open spec fn tx_id_chars(n: u64) -> Seq<char> {
    "TX-"@ + spec_hex_fixed(n as nat, 8)
}

/// The file name of a code-analysis event.
pub open spec fn file_name_chars(k: u64) -> Seq<char> {
    "file_"@ + spec_decimal(k as nat) + ".rs"@
}

/// The message of a deterministic test log event.
pub open spec fn test_log_message_chars(i: u64) -> Seq<char> {
    "LOG: Evento de prueba #"@ + spec_decimal(i as nat)
}

/// The transaction identifier of a deterministic test financial event.
pub open spec fn test_tx_id_chars(i: u64) -> Seq<char> {
    "TX-"@ + spec_decimal_min4(i as nat)
}

pub fn make_trace_id(n: u64) -> (r: String)
    ensures
        r@ == trace_id_chars(n),
{
    let r = "trace-".to_owned().concat(u64_to_hex_fixed(n, 16).as_str());
    proof {
        assert(r@ =~= trace_id_chars(n));
    }
    r
}

pub fn make_source_label(k: u64) -> (r: String)
    ensures
        r@ == source_label_chars(k),
{
    let r = "source_".to_owned().concat(u64_to_decimal(k).as_str());
    proof {
        assert(r@ =~= source_label_chars(k));
    }
    r
}

pub fn make_log_message(i: u64, n: u64) -> (r: String)
    ensures
        r@ == log_message_chars(i, n),
{
    let r = "LOG: Evento masivo #"
        .to_owned()
        .concat(u64_to_decimal(i).as_str())
        .concat(" - ")
        .concat(u64_to_decimal(n).as_str());
    proof {
        assert(r@ =~= log_message_chars(i, n));
    }
    r
}

pub fn make_tx_id(n: u64) -> (r: String)
    ensures
        r@ == tx_id_chars(n),
{
    let r = "TX-".to_owned().concat(u64_to_hex_fixed(n, 8).as_str());
    proof {
        assert(r@ =~= tx_id_chars(n));
    }
    r
}

pub fn make_file_name(k: u64) -> (r: String)
    ensures
        r@ == file_name_chars(k),
{
    let r = "file_".to_owned().concat(u64_to_decimal(k).as_str()).concat(".rs");
    proof {
        assert(r@ =~= file_name_chars(k));
    }
    r
}

pub fn make_test_log_message(i: u64) -> (r: String)
    ensures
        r@ == test_log_message_chars(i),
{
    let r = "LOG: Evento de prueba #".to_owned().concat(u64_to_decimal(i).as_str());
    proof {
        assert(r@ =~= test_log_message_chars(i));
    }
    r
}

pub fn make_test_tx_id(i: u64) -> (r: String)
    ensures
        r@ == test_tx_id_chars(i),
{
    let r = "TX-".to_owned().concat(u64_to_decimal_min4(i).as_str());
    proof {
        assert(r@ =~= test_tx_id_chars(i));
    }
    r
}

/// The three currencies a financial event can carry.
pub open spec fn currency_chars(i: u64) -> Seq<char> {
    if i == 0 {
        "USD"@
    } else if i == 1 {
        "EUR"@
    } else {
        "GBP"@
    }
}

pub fn currency_str(i: u64) -> (r: &'static str)
    ensures
        r@ == currency_chars(i),
{
    if i == 0 {
        "USD"
    } else if i == 1 {
        "EUR"
    } else {
        "GBP"
    }
}

/// What holds of every event the randomized generator yields: the
/// timestamp is the injected clock reading, the source label comes from a
/// bounded index, the trace identifier from a random word, and each
/// variant's fields lie in their documented ranges. Amounts are cents in
/// `[10000, 1000000)`, that is `[100, 10000)` whole units.
pub open spec fn generated_event_wf(a: AuditType, now_micros: u64) -> bool {
    &&& a.spec_metadata().timestamp_micros == now_micros
    &&& exists|k: u64| 1 <= k < 100 && a.spec_metadata().source@ == #[trigger] source_label_chars(k)
    &&& exists|n: u64| a.spec_metadata().trace_id@ == #[trigger] trace_id_chars(n)
    &&& match a {
        AuditType::Log { .. } => true,
        AuditType::Financial { amount_cents, currency, tx_id, .. } => {
            &&& 10000 <= amount_cents < 1000000
            &&& (currency@ == "USD"@ || currency@ == "EUR"@ || currency@ == "GBP"@)
            &&& exists|n: u64| n < 0x1_0000_0000 && tx_id@ == #[trigger] tx_id_chars(n)
        },
        AuditType::CodeAnalysis { file, issues_found, .. } => {
            &&& issues_found < 50
            &&& exists|k: u64| 1 <= k < 1000 && file@ == #[trigger] file_name_chars(k)
        },
    }
}

/// What a generated log event's message looks like at batch index `i`: the
/// fixed prefix, the index, and the random word drawn for it.
pub open spec fn log_message_shape(a: AuditType, i: u64) -> bool {
    a matches AuditType::Log { message, .. } ==> exists|n: u64|
        message@ == #[trigger] log_message_chars(i, n)
}

/// Generates `count` synthetic events with randomized fields. Pure apart
/// from consuming randomness and the injected clock reading: given the same
/// seed and clock value, the same batch comes out.
pub fn generate_high_frequency_audits(count: usize, rng: &mut AuditRng, now_micros: u64) -> (r:
    Vec<AuditType>)
    ensures
        r@.len() == count,
        forall|j: int| 0 <= j < count ==> generated_event_wf(#[trigger] r@[j], now_micros),
        forall|j: int| 0 <= j < count ==> log_message_shape(#[trigger] r@[j], j as u64),
{
    let mut audits: Vec<AuditType> = Vec::new();
    let mut i: usize = 0;
    while i < count
        invariant
            i <= count,
            audits@.len() == i,
            forall|j: int| 0 <= j < i ==> generated_event_wf(#[trigger] audits@[j], now_micros),
            forall|j: int| 0 <= j < i ==> log_message_shape(#[trigger] audits@[j], j as u64),
        decreases count - i,
    {
        let priority = AuditPriority::from_index(rng.next_between(0, 4));
        let trace_word = rng.next_word();
        let trace_id = make_trace_id(trace_word);
        let source_index = rng.next_between(1, 100);
        let source = make_source_label(source_index);
        let metadata = AuditMetadata {
            timestamp_micros: now_micros,
            priority,
            source,
            trace_id,
        };
        let variant = rng.next_between(0, 3);
        let audit: AuditType = if variant == 0 {
            let word = rng.next_word();
            AuditType::Log { message: make_log_message(i as u64, word), metadata }
        } else if variant == 1 {
            let amount_cents = rng.next_between(10000, 1000000);
            let currency = currency_str(rng.next_between(0, 3)).to_owned();
            let word = rng.next_word();
            let tx_word = word & 0xFFFF_FFFF;
            assert(word & 0xFFFF_FFFF < 0x1_0000_0000) by (bit_vector);
            AuditType::Financial { amount_cents, currency, tx_id: make_tx_id(tx_word), metadata }
        } else {
            let file_index = rng.next_between(1, 1000);
            let issues = rng.next_between(0, 50);
            AuditType::CodeAnalysis {
                file: make_file_name(file_index),
                issues_found: issues as u32,
                metadata,
            }
        };
        audits.push(audit);
        i += 1;
    }
    audits
}

/// What holds of the deterministic test batch at index `i`: the variant
/// cycles with period three, the priority with period four, and every field
/// is an exact function of the index.
pub open spec fn test_audit_matches(a: AuditType, i: u64, now_micros: u64) -> bool {
    &&& a.spec_metadata().timestamp_micros == now_micros
    &&& a.spec_metadata().priority == index_priority(i)
    &&& a.spec_metadata().source@ == source_label_chars(i)
    &&& a.spec_metadata().trace_id@ == trace_id_chars(i)
    &&& match a {
        AuditType::Log { message, .. } => i % 3 == 0 && message@ == test_log_message_chars(i),
        AuditType::Financial { amount_cents, currency, tx_id, .. } => {
            &&& i % 3 == 1
            &&& amount_cents == 100000 + i * 10000
            &&& currency@ == "USD"@
            &&& tx_id@ == test_tx_id_chars(i)
        },
        AuditType::CodeAnalysis { file, issues_found, .. } => {
            &&& i % 3 == 2
            &&& file@ == file_name_chars(i)
            &&& issues_found == i % 10
        },
    }
}

/// Generates a deterministic batch of `count` events whose fields are exact
/// functions of the index: no randomness, reproducible in full.
pub fn generate_test_audits(count: u32, now_micros: u64) -> (r: Vec<AuditType>)
    ensures
        r@.len() == count,
        forall|j: int| 0 <= j < count ==> test_audit_matches(#[trigger] r@[j], j as u64, now_micros),
{
    let mut audits: Vec<AuditType> = Vec::new();
    let mut i: u32 = 0;
    while i < count
        invariant
            i <= count,
            audits@.len() == i,
            forall|j: int|
                0 <= j < i ==> test_audit_matches(#[trigger] audits@[j], j as u64, now_micros),
        decreases count - i,
    {
        let index: u64 = i as u64;
        let metadata = AuditMetadata {
            timestamp_micros: now_micros,
            priority: AuditPriority::from_index(index),
            source: make_source_label(index),
            trace_id: make_trace_id(index),
        };
        let audit: AuditType = if index % 3 == 0 {
            AuditType::Log { message: make_test_log_message(index), metadata }
        } else if index % 3 == 1 {
            AuditType::Financial {
                amount_cents: 100000 + index * 10000,
                currency: "USD".to_owned(),
                tx_id: make_test_tx_id(index),
                metadata,
            }
        } else {
            AuditType::CodeAnalysis {
                file: make_file_name(index),
                issues_found: (index % 10) as u32,
                metadata,
            }
        };
        audits.push(audit);
        i += 1;
    }
    audits
}

} // verus!
