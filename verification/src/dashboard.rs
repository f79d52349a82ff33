//! The dashboard: rolling statistics over processed events, updated only
//! through `update`/`record_error`, read only through snapshots.

use vstd::prelude::*;
use crate::clock::{elapsed_micros_of, now_instant};
use crate::event::{AuditPriority, AuditType};
use crate::stats::{
    max_u64, seq_max, seq_min, seq_sum, spec_throughput_milli_ops, throughput_milli_ops,
    window_avg, window_max, window_min,
};

verus! {

/// The rolling window keeps at most this many recent processing times.
pub const RESULT_WINDOW: usize = 10000;

/// One counter per priority; the keys are fixed to the four priorities at
/// construction and are never absent.
#[derive(Debug, Clone, Copy, PartialEq, Eq, Structural)]
pub struct PriorityStats {
    pub low: u64,
    pub medium: u64,
    pub high: u64,
    pub critical: u64,
}

impl PriorityStats {
    pub open spec fn count_for(self, p: AuditPriority) -> u64 {
        match p {
            AuditPriority::Low => self.low,
            AuditPriority::Medium => self.medium,
            AuditPriority::High => self.high,
            AuditPriority::Critical => self.critical,
        }
    }

    pub open spec fn sum(self) -> int {
        self.low + self.medium + self.high + self.critical
    }

    pub fn new() -> (r: PriorityStats)
        ensures
            r == (PriorityStats { low: 0, medium: 0, high: 0, critical: 0 }),
    {
        PriorityStats { low: 0, medium: 0, high: 0, critical: 0 }
    }

    pub fn get(&self, p: AuditPriority) -> (r: u64)
        ensures
            r == self.count_for(p),
    {
        match p {
            AuditPriority::Low => self.low,
            AuditPriority::Medium => self.medium,
            AuditPriority::High => self.high,
            AuditPriority::Critical => self.critical,
        }
    }
}

/// How the rolling window takes one more entry: appended at the back, and
/// once the bound is reached the oldest entry leaves first.
pub open spec fn spec_window_push(s: Seq<u64>, d: u64) -> Seq<u64> {
    if s.len() < RESULT_WINDOW {
        s.push(d)
    } else {
        s.skip(1).push(d)
    }
}

/// Law: the rolling window never outgrows its bound, and once full, taking
/// one more entry drops exactly the oldest one: each remaining position
/// slides forward and the new entry sits at the back.
pub proof fn lemma_window_evicts_oldest(s: Seq<u64>, d: u64)
    requires
        s.len() <= RESULT_WINDOW,
    ensures
        spec_window_push(s, d).len() <= RESULT_WINDOW,
        spec_window_push(s, d).last() == d,
        s.len() == RESULT_WINDOW ==> forall|j: int|
            0 <= j < RESULT_WINDOW - 1 ==> #[trigger] spec_window_push(s, d)[j] == s[j + 1],
{
}

/// The mutable statistics aggregate. Counters only ever grow; the window
/// of processing times is bounded; the peak throughput never falls.
pub struct AuditDashboard {
    total_processed: u64,
    logs_processed: u64,
    financial_processed: u64,
    code_processed: u64,
    priority_stats: PriorityStats,
    errors: u64,
    processing_times: Vec<u64>,
    peak_throughput_milli_ops: u64,
    start_time: std::time::Instant,
}

impl AuditDashboard {
    pub closed spec fn total_processed(self) -> u64 {
        self.total_processed
    }

    pub closed spec fn logs_processed(self) -> u64 {
        self.logs_processed
    }

    pub closed spec fn financial_processed(self) -> u64 {
        self.financial_processed
    }

    pub closed spec fn code_processed(self) -> u64 {
        self.code_processed
    }

    pub closed spec fn stats(self) -> PriorityStats {
        self.priority_stats
    }

    pub closed spec fn errors_count(self) -> u64 {
        self.errors
    }

    pub closed spec fn times(self) -> Seq<u64> {
        self.processing_times@
    }

    pub closed spec fn peak(self) -> u64 {
        self.peak_throughput_milli_ops
    }

    /// The dashboard invariant: the total equals the sum of the per-type
    /// counters and equals the sum over the priority counters, and the
    /// window never exceeds its bound.
    pub open spec fn wf(self) -> bool {
        &&& self.total_processed() as int == self.logs_processed() + self.financial_processed()
            + self.code_processed()
        &&& self.total_processed() as int == self.stats().sum()
        &&& self.times().len() <= RESULT_WINDOW
    }

    /// A fresh dashboard: every counter zero, the window empty, the start
    /// instant taken from the injected clock.
    pub fn new() -> (r: AuditDashboard)
        ensures
            r.wf(),
            r.total_processed() == 0,
            r.logs_processed() == 0,
            r.financial_processed() == 0,
            r.code_processed() == 0,
            r.stats() == (PriorityStats { low: 0, medium: 0, high: 0, critical: 0 }),
            r.errors_count() == 0,
            r.times().len() == 0,
            r.peak() == 0,
    {
        AuditDashboard {
            total_processed: 0,
            logs_processed: 0,
            financial_processed: 0,
            code_processed: 0,
            priority_stats: PriorityStats::new(),
            errors: 0,
            processing_times: Vec::new(),
            peak_throughput_milli_ops: 0,
            start_time: now_instant(),
        }
    }

    /// Applies one successfully processed event at a given clock reading:
    /// the total and the matching per-type and per-priority counters each
    /// advance exactly once, the processing time joins the window with
    /// first-in-first-out eviction, and the peak throughput rises to the
    /// new instantaneous throughput when that is larger.
    pub fn update_at(&mut self, audit: &AuditType, processing_time_micros: u64, elapsed_micros: u64)
        requires
            old(self).wf(),
            old(self).total_processed() < u64::MAX,
        ensures
            final(self).wf(),
            final(self).total_processed() == old(self).total_processed() + 1,
            final(self).logs_processed() as int == old(self).logs_processed() + (if audit.is_log() {
                1int
            } else {
                0int
            }),
            final(self).financial_processed() as int == old(self).financial_processed() + (
            if audit.is_financial() {
                1int
            } else {
                0int
            }),
            final(self).code_processed() as int == old(self).code_processed() + (if audit.is_code() {
                1int
            } else {
                0int
            }),
            forall|p: AuditPriority|
                #[trigger] final(self).stats().count_for(p) as int == old(self).stats().count_for(p)
                    + (if p == audit.spec_priority() {
                    1int
                } else {
                    0int
                }),
            final(self).errors_count() == old(self).errors_count(),
            final(self).times() == spec_window_push(old(self).times(), processing_time_micros),
            final(self).peak() == max_u64(
                old(self).peak(),
                spec_throughput_milli_ops(final(self).total_processed(), elapsed_micros),
            ),
            final(self).peak() >= old(self).peak(),
    {
        self.total_processed = self.total_processed + 1;
        self.processing_times.push(processing_time_micros);
        if self.processing_times.len() > RESULT_WINDOW {
            self.processing_times.remove(0);
            proof {
                assert(self.processing_times@ =~= old(self).times().skip(1).push(
                    processing_time_micros,
                ));
            }
        }
        match audit {
            AuditType::Log { .. } => {
                self.logs_processed = self.logs_processed + 1;
            },
            AuditType::Financial { .. } => {
                self.financial_processed = self.financial_processed + 1;
            },
            AuditType::CodeAnalysis { .. } => {
                self.code_processed = self.code_processed + 1;
            },
        }
        match audit.priority() {
            AuditPriority::Low => {
                self.priority_stats.low = self.priority_stats.low + 1;
            },
            AuditPriority::Medium => {
                self.priority_stats.medium = self.priority_stats.medium + 1;
            },
            AuditPriority::High => {
                self.priority_stats.high = self.priority_stats.high + 1;
            },
            AuditPriority::Critical => {
                self.priority_stats.critical = self.priority_stats.critical + 1;
            },
        }
        let tp = throughput_milli_ops(self.total_processed, elapsed_micros);
        if tp > self.peak_throughput_milli_ops {
            self.peak_throughput_milli_ops = tp;
        }
    }

    /// Applies one successfully processed event at the clock's current
    /// reading. Whatever the clock returns, the counters and the window
    /// change exactly as in `update_at`, and the peak never falls.
    pub fn update(&mut self, audit: &AuditType, processing_time_micros: u64)
        requires
            old(self).wf(),
            old(self).total_processed() < u64::MAX,
        ensures
            final(self).wf(),
            final(self).total_processed() == old(self).total_processed() + 1,
            final(self).logs_processed() as int == old(self).logs_processed() + (if audit.is_log() {
                1int
            } else {
                0int
            }),
            final(self).financial_processed() as int == old(self).financial_processed() + (
            if audit.is_financial() {
                1int
            } else {
                0int
            }),
            final(self).code_processed() as int == old(self).code_processed() + (if audit.is_code() {
                1int
            } else {
                0int
            }),
            forall|p: AuditPriority|
                #[trigger] final(self).stats().count_for(p) as int == old(self).stats().count_for(p)
                    + (if p == audit.spec_priority() {
                    1int
                } else {
                    0int
                }),
            final(self).errors_count() == old(self).errors_count(),
            final(self).times() == spec_window_push(old(self).times(), processing_time_micros),
            final(self).peak() >= old(self).peak(),
    {
        let elapsed_micros = elapsed_micros_of(&self.start_time);
        self.update_at(audit, processing_time_micros, elapsed_micros);
    }

    /// An immutable copy of the whole dashboard at a given clock reading,
    /// with the derived fields computed from the bounded window: safe to
    /// render without holding any lock.
    pub fn snapshot_at(&self, elapsed_micros: u64) -> (r: DashboardView)
        requires
            self.wf(),
        ensures
            r.total_processed == self.total_processed(),
            r.logs_processed == self.logs_processed(),
            r.financial_processed == self.financial_processed(),
            r.code_processed == self.code_processed(),
            r.priority_stats == self.stats(),
            r.errors == self.errors_count(),
            r.processing_times_micros@ == self.times(),
            r.peak_throughput_milli_ops == self.peak(),
            r.elapsed_micros == elapsed_micros,
            r.throughput_now_milli_ops == spec_throughput_milli_ops(
                self.total_processed(),
                elapsed_micros,
            ),
            self.times().len() == 0 ==> r.avg_processing_micros is None
                && r.min_processing_micros is None && r.max_processing_micros is None,
            self.times().len() > 0 ==> r.avg_processing_micros == Some(
                (seq_sum(self.times()) / self.times().len() as int) as u64,
            ) && r.min_processing_micros == Some(seq_min(self.times()))
                && r.max_processing_micros == Some(seq_max(self.times())),
    {
        DashboardView {
            total_processed: self.total_processed,
            logs_processed: self.logs_processed,
            financial_processed: self.financial_processed,
            code_processed: self.code_processed,
            priority_stats: self.priority_stats,
            errors: self.errors,
            processing_times_micros: copy_window(&self.processing_times),
            peak_throughput_milli_ops: self.peak_throughput_milli_ops,
            elapsed_micros,
            throughput_now_milli_ops: throughput_milli_ops(self.total_processed, elapsed_micros),
            avg_processing_micros: window_avg(&self.processing_times),
            min_processing_micros: window_min(&self.processing_times),
            max_processing_micros: window_max(&self.processing_times),
        }
    }

    /// A snapshot at the clock's current reading.
    pub fn snapshot(&self) -> (r: DashboardView)
        requires
            self.wf(),
        ensures
            r.total_processed == self.total_processed(),
            r.logs_processed == self.logs_processed(),
            r.financial_processed == self.financial_processed(),
            r.code_processed == self.code_processed(),
            r.priority_stats == self.stats(),
            r.errors == self.errors_count(),
            r.processing_times_micros@ == self.times(),
            r.peak_throughput_milli_ops == self.peak(),
            r.throughput_now_milli_ops == spec_throughput_milli_ops(
                r.total_processed,
                r.elapsed_micros,
            ),
            self.times().len() == 0 ==> r.avg_processing_micros is None
                && r.min_processing_micros is None && r.max_processing_micros is None,
            self.times().len() > 0 ==> r.avg_processing_micros == Some(
                (seq_sum(self.times()) / self.times().len() as int) as u64,
            ) && r.min_processing_micros == Some(seq_min(self.times()))
                && r.max_processing_micros == Some(seq_max(self.times())),
    {
        let elapsed_micros = elapsed_micros_of(&self.start_time);
        self.snapshot_at(elapsed_micros)
    }

    /// Counts one erroneous result; nothing else moves.
    pub fn record_error(&mut self)
        requires
            old(self).errors_count() < u64::MAX,
        ensures
            final(self).wf() == old(self).wf(),
            final(self).errors_count() == old(self).errors_count() + 1,
            final(self).total_processed() == old(self).total_processed(),
            final(self).logs_processed() == old(self).logs_processed(),
            final(self).financial_processed() == old(self).financial_processed(),
            final(self).code_processed() == old(self).code_processed(),
            final(self).stats() == old(self).stats(),
            final(self).times() == old(self).times(),
            final(self).peak() == old(self).peak(),
    {
        self.errors = self.errors + 1;
    }
}

/// Law: on a well-formed dashboard, the total equals the sum of the
/// per-type counters and the sum over the four priority counters. Every
/// constructor and mutator of the dashboard establishes or preserves this.
pub proof fn lemma_dashboard_balanced(d: AuditDashboard)
    requires
        d.wf(),
    ensures
        d.total_processed() as int == d.logs_processed() + d.financial_processed()
            + d.code_processed(),
        d.total_processed() as int == d.stats().count_for(AuditPriority::Low)
            + d.stats().count_for(AuditPriority::Medium) + d.stats().count_for(
            AuditPriority::High,
        ) + d.stats().count_for(AuditPriority::Critical),
{
}

/// An exact copy of a window of processing times.
fn copy_window(v: &Vec<u64>) -> (r: Vec<u64>)
    ensures
        r@ == v@,
{
    let mut out: Vec<u64> = Vec::new();
    let mut i: usize = 0;
    while i < v.len()
        invariant
            i <= v@.len(),
            out@ =~= v@.subrange(0, i as int),
        decreases v@.len() - i,
    {
        out.push(v[i]);
        i = i + 1;
    }
    proof {
        assert(v@.subrange(0, v@.len() as int) =~= v@);
    }
    out
}

/// The immutable copy a snapshot returns: the dashboard's fields plus the
/// derived elapsed time, instantaneous throughput, and the mean, smallest
/// and largest entry of the bounded window.
#[derive(Debug, Clone, PartialEq, Eq)]
pub struct DashboardView {
    pub total_processed: u64,
    pub logs_processed: u64,
    pub financial_processed: u64,
    pub code_processed: u64,
    pub priority_stats: PriorityStats,
    pub errors: u64,
    pub processing_times_micros: Vec<u64>,
    pub peak_throughput_milli_ops: u64,
    pub elapsed_micros: u64,
    pub throughput_now_milli_ops: u64,
    pub avg_processing_micros: Option<u64>,
    pub min_processing_micros: Option<u64>,
    pub max_processing_micros: Option<u64>,
}

} // verus!
