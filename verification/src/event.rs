//! The audit-event model: priorities, shared metadata, the three event
//! variants, and the per-event processing result.

use vstd::prelude::*;

verus! {

/// Severity attached to every event's metadata. A closed enum with stable
/// structural equality, so it can serve as a statistics key.
#[derive(Debug, Clone, Copy, PartialEq, Eq, Hash, Structural)]
pub enum AuditPriority {
    Low,
    Medium,
    High,
    Critical,
}

/// The label that the dashboard renderer prints for a priority.
pub open spec fn priority_label(p: AuditPriority) -> Seq<char> {
    match p {
        AuditPriority::Low => "BAJA"@,
        AuditPriority::Medium => "MEDIA"@,
        AuditPriority::High => "ALTA"@,
        AuditPriority::Critical => "CRÍTICA"@,
    }
}

impl AuditPriority {
    pub fn as_str(&self) -> (r: &'static str)
        ensures
            r@ == priority_label(*self),
    {
        match self {
            AuditPriority::Low => "BAJA",
            AuditPriority::Medium => "MEDIA",
            AuditPriority::High => "ALTA",
            AuditPriority::Critical => "CRÍTICA",
        }
    }

    /// The four priorities in a fixed order, used to pick one uniformly.
    pub fn from_index(i: u64) -> (r: AuditPriority)
        ensures
            r == index_priority(i),
    {
        if i % 4 == 0 {
            AuditPriority::Low
        } else if i % 4 == 1 {
            AuditPriority::Medium
        } else if i % 4 == 2 {
            AuditPriority::High
        } else {
            AuditPriority::Critical
        }
    }
}

/// Maps an index to a priority, cycling through the four values.
pub open spec fn index_priority(i: u64) -> AuditPriority {
    if i % 4 == 0 {
        AuditPriority::Low
    } else if i % 4 == 1 {
        AuditPriority::Medium
    } else if i % 4 == 2 {
        AuditPriority::High
    } else {
        AuditPriority::Critical
    }
}

/// The metadata block shared by every event variant. The timestamp is a
/// microsecond reading of the injected clock.
#[derive(Debug, Clone, PartialEq, Eq)]
pub struct AuditMetadata {
    pub timestamp_micros: u64,
    pub priority: AuditPriority,
    pub source: String,
    pub trace_id: String,
}

/// One unit of synthetic audit work. Monetary amounts are held in cents so
/// that the bookkeeping stays in exact integer arithmetic.
#[derive(Debug, Clone, PartialEq, Eq)]
pub enum AuditType {
    Log { message: String, metadata: AuditMetadata },
    Financial { amount_cents: u64, currency: String, tx_id: String, metadata: AuditMetadata },
    CodeAnalysis { file: String, issues_found: u32, metadata: AuditMetadata },
}

impl AuditType {
    pub open spec fn spec_metadata(self) -> AuditMetadata {
        match self {
            AuditType::Log { metadata, .. } => metadata,
            AuditType::Financial { metadata, .. } => metadata,
            AuditType::CodeAnalysis { metadata, .. } => metadata,
        }
    }

    pub open spec fn spec_priority(self) -> AuditPriority {
        self.spec_metadata().priority
    }

    pub fn metadata(&self) -> (r: &AuditMetadata)
        ensures
            *r == self.spec_metadata(),
    {
        match self {
            AuditType::Log { metadata, .. } => metadata,
            AuditType::Financial { metadata, .. } => metadata,
            AuditType::CodeAnalysis { metadata, .. } => metadata,
        }
    }

    pub fn priority(&self) -> (r: AuditPriority)
        ensures
            r == self.spec_priority(),
    {
        self.metadata().priority
    }

    pub open spec fn is_log(self) -> bool {
        self matches AuditType::Log { .. }
    }

    pub open spec fn is_financial(self) -> bool {
        self matches AuditType::Financial { .. }
    }

    pub open spec fn is_code(self) -> bool {
        self matches AuditType::CodeAnalysis { .. }
    }
}

/// The outcome of processing one event: the event itself, the measured
/// processing time, and the injected error, if one was drawn. Produced
/// exactly once per dispatched event and immutable afterwards.
#[derive(Debug, Clone, PartialEq, Eq)]
pub struct ProcessingResult {
    pub audit: AuditType,
    pub duration_micros: u64,
    pub error: Option<String>,
}

impl ProcessingResult {
    pub open spec fn is_error(self) -> bool {
        self.error is Some
    }
}

} // verus!
