//! The aggregator: the sole consumer of processing results. It applies
//! each result to the dashboard exactly once — an erroneous result counts
//! only toward the error counter, a successful one toward the totals — and
//! hands out snapshots for rendering.

use vstd::prelude::*;
use crate::dashboard::{AuditDashboard, DashboardView, spec_window_push, RESULT_WINDOW};
use crate::event::{AuditPriority, ProcessingResult};
use crate::stats::{seq_max, seq_min, seq_sum, spec_throughput_milli_ops};

verus! {

/// How many results of the batch carry an injected error.
pub open spec fn count_errors(s: Seq<ProcessingResult>) -> int
    decreases s.len(),
{
    if s.len() == 0 {
        0
    } else {
        count_errors(s.drop_last()) + if s.last().is_error() {
            1int
        } else {
            0int
        }
    }
}

/// How many results of the batch are error-free.
pub open spec fn count_ok(s: Seq<ProcessingResult>) -> int
    decreases s.len(),
{
    if s.len() == 0 {
        0
    } else {
        count_ok(s.drop_last()) + if s.last().is_error() {
            0int
        } else {
            1int
        }
    }
}

/// How many error-free results carry a log event.
pub open spec fn count_ok_logs(s: Seq<ProcessingResult>) -> int
    decreases s.len(),
{
    if s.len() == 0 {
        0
    } else {
        count_ok_logs(s.drop_last()) + if !s.last().is_error() && s.last().audit.is_log() {
            1int
        } else {
            0int
        }
    }
}

/// How many error-free results carry a financial event.
pub open spec fn count_ok_financial(s: Seq<ProcessingResult>) -> int
    decreases s.len(),
{
    if s.len() == 0 {
        0
    } else {
        count_ok_financial(s.drop_last()) + if !s.last().is_error()
            && s.last().audit.is_financial() {
            1int
        } else {
            0int
        }
    }
}

/// How many error-free results carry a code-analysis event.
pub open spec fn count_ok_code(s: Seq<ProcessingResult>) -> int
    decreases s.len(),
{
    if s.len() == 0 {
        0
    } else {
        count_ok_code(s.drop_last()) + if !s.last().is_error() && s.last().audit.is_code() {
            1int
        } else {
            0int
        }
    }
}

/// How many error-free results carry an event of priority `p`.
pub open spec fn count_ok_priority(s: Seq<ProcessingResult>, p: AuditPriority) -> int
    decreases s.len(),
{
    if s.len() == 0 {
        0
    } else {
        count_ok_priority(s.drop_last(), p) + if !s.last().is_error()
            && s.last().audit.spec_priority() == p {
            1int
        } else {
            0int
        }
    }
}

/// Appending one result moves each count by exactly its own contribution.
pub proof fn lemma_counts_push(s: Seq<ProcessingResult>, x: ProcessingResult)
    ensures
        count_errors(s.push(x)) == count_errors(s) + if x.is_error() {
            1int
        } else {
            0int
        },
        count_ok(s.push(x)) == count_ok(s) + if x.is_error() {
            0int
        } else {
            1int
        },
        count_ok_logs(s.push(x)) == count_ok_logs(s) + if !x.is_error() && x.audit.is_log() {
            1int
        } else {
            0int
        },
        count_ok_financial(s.push(x)) == count_ok_financial(s) + if !x.is_error()
            && x.audit.is_financial() {
            1int
        } else {
            0int
        },
        count_ok_code(s.push(x)) == count_ok_code(s) + if !x.is_error() && x.audit.is_code() {
            1int
        } else {
            0int
        },
        forall|p: AuditPriority|
            #[trigger] count_ok_priority(s.push(x), p) == count_ok_priority(s, p) + if !x.is_error()
                && x.audit.spec_priority() == p {
                1int
            } else {
                0int
            },
{
    assert(s.push(x).drop_last() =~= s);
    assert(s.push(x).last() == x);
}

/// Law: every result of a batch is counted exactly once — as an error or
/// as a success — and every success is counted exactly once by event type
/// and exactly once by priority.
pub proof fn lemma_counts_partition(s: Seq<ProcessingResult>)
    ensures
        0 <= count_errors(s),
        0 <= count_ok(s),
        count_ok(s) + count_errors(s) == s.len(),
        count_ok(s) == count_ok_logs(s) + count_ok_financial(s) + count_ok_code(s),
        count_ok(s) == count_ok_priority(s, AuditPriority::Low) + count_ok_priority(
            s,
            AuditPriority::Medium,
        ) + count_ok_priority(s, AuditPriority::High) + count_ok_priority(
            s,
            AuditPriority::Critical,
        ),
    decreases s.len(),
{
    if s.len() == 0 {
    } else {
        lemma_counts_partition(s.drop_last());
    }
}

/// Law: a batch whose every result is error-free — as the pool guarantees
/// when the injected error rate is zero — contributes nothing to the error
/// counter and everything to the processed total.
pub proof fn lemma_error_free_batch(s: Seq<ProcessingResult>)
    requires
        forall|j: int| 0 <= j < s.len() ==> !(#[trigger] s[j]).is_error(),
    ensures
        count_errors(s) == 0,
        count_ok(s) == s.len(),
    decreases s.len(),
{
    if s.len() == 0 {
    } else {
        assert(!s.last().is_error());
        lemma_error_free_batch(s.drop_last());
    }
}

/// The single consumer maintaining the running statistics.
pub struct Aggregator {
    dashboard: AuditDashboard,
}

impl Aggregator {
    pub closed spec fn board(self) -> AuditDashboard {
        self.dashboard
    }

    pub open spec fn wf(self) -> bool {
        self.board().wf()
    }

    pub fn new() -> (r: Aggregator)
        ensures
            r.wf(),
            r.board().total_processed() == 0,
            r.board().logs_processed() == 0,
            r.board().financial_processed() == 0,
            r.board().code_processed() == 0,
            forall|p: AuditPriority| #[trigger] r.board().stats().count_for(p) == 0,
            r.board().errors_count() == 0,
            r.board().times().len() == 0,
            r.board().peak() == 0,
    {
        Aggregator { dashboard: AuditDashboard::new() }
    }

    /// A read-only view of the dashboard the aggregator owns.
    pub fn dashboard(&self) -> (r: &AuditDashboard)
        ensures
            *r == self.board(),
    {
        &self.dashboard
    }

    /// Applies one result at a given clock reading: an erroneous result
    /// moves only the error counter; a successful one advances the total,
    /// its type's counter and its priority's counter exactly once, appends
    /// its duration to the window, and raises the peak throughput to the
    /// new instantaneous throughput when that is larger.
    pub fn apply_at(&mut self, result: &ProcessingResult, elapsed_micros: u64)
        requires
            old(self).wf(),
            old(self).board().total_processed() < u64::MAX,
            old(self).board().errors_count() < u64::MAX,
        ensures
            final(self).wf(),
            result.is_error() ==> {
                &&& final(self).board().errors_count() == old(self).board().errors_count() + 1
                &&& final(self).board().total_processed() == old(self).board().total_processed()
                &&& final(self).board().logs_processed() == old(self).board().logs_processed()
                &&& final(self).board().financial_processed() == old(
                    self,
                ).board().financial_processed()
                &&& final(self).board().code_processed() == old(self).board().code_processed()
                &&& final(self).board().stats() == old(self).board().stats()
                &&& final(self).board().times() == old(self).board().times()
                &&& final(self).board().peak() == old(self).board().peak()
            },
            !result.is_error() ==> {
                &&& final(self).board().errors_count() == old(self).board().errors_count()
                &&& final(self).board().total_processed() == old(self).board().total_processed()
                    + 1
                &&& final(self).board().logs_processed() as int == old(
                    self,
                ).board().logs_processed() + (if result.audit.is_log() {
                    1int
                } else {
                    0int
                })
                &&& final(self).board().financial_processed() as int == old(
                    self,
                ).board().financial_processed() + (if result.audit.is_financial() {
                    1int
                } else {
                    0int
                })
                &&& final(self).board().code_processed() as int == old(
                    self,
                ).board().code_processed() + (if result.audit.is_code() {
                    1int
                } else {
                    0int
                })
                &&& forall|p: AuditPriority|
                    #[trigger] final(self).board().stats().count_for(p) as int == old(
                        self,
                    ).board().stats().count_for(p) + (if p == result.audit.spec_priority() {
                        1int
                    } else {
                        0int
                    })
                &&& final(self).board().times() == spec_window_push(
                    old(self).board().times(),
                    result.duration_micros,
                )
                &&& final(self).board().peak() >= old(self).board().peak()
            },
    {
        if result.error.is_some() {
            self.dashboard.record_error();
        } else {
            self.dashboard.update_at(&result.audit, result.duration_micros, elapsed_micros);
        }
    }

    /// Applies one result at the clock's current reading; whatever the
    /// clock returns, the counters move exactly as in `apply_at`.
    pub fn update(&mut self, result: &ProcessingResult)
        requires
            old(self).wf(),
            old(self).board().total_processed() < u64::MAX,
            old(self).board().errors_count() < u64::MAX,
        ensures
            final(self).wf(),
            result.is_error() ==> {
                &&& final(self).board().errors_count() == old(self).board().errors_count() + 1
                &&& final(self).board().total_processed() == old(self).board().total_processed()
                &&& final(self).board().logs_processed() == old(self).board().logs_processed()
                &&& final(self).board().financial_processed() == old(
                    self,
                ).board().financial_processed()
                &&& final(self).board().code_processed() == old(self).board().code_processed()
                &&& final(self).board().stats() == old(self).board().stats()
                &&& final(self).board().times() == old(self).board().times()
                &&& final(self).board().peak() == old(self).board().peak()
            },
            !result.is_error() ==> {
                &&& final(self).board().errors_count() == old(self).board().errors_count()
                &&& final(self).board().total_processed() == old(self).board().total_processed()
                    + 1
                &&& final(self).board().logs_processed() as int == old(
                    self,
                ).board().logs_processed() + (if result.audit.is_log() {
                    1int
                } else {
                    0int
                })
                &&& final(self).board().financial_processed() as int == old(
                    self,
                ).board().financial_processed() + (if result.audit.is_financial() {
                    1int
                } else {
                    0int
                })
                &&& final(self).board().code_processed() as int == old(
                    self,
                ).board().code_processed() + (if result.audit.is_code() {
                    1int
                } else {
                    0int
                })
                &&& forall|p: AuditPriority|
                    #[trigger] final(self).board().stats().count_for(p) as int == old(
                        self,
                    ).board().stats().count_for(p) + (if p == result.audit.spec_priority() {
                        1int
                    } else {
                        0int
                    })
                &&& final(self).board().times() == spec_window_push(
                    old(self).board().times(),
                    result.duration_micros,
                )
                &&& final(self).board().peak() >= old(self).board().peak()
            },
    {
        if result.error.is_some() {
            self.dashboard.record_error();
        } else {
            self.dashboard.update(&result.audit, result.duration_micros);
        }
    }

    /// Consumes a drained batch of results in order, one `update` each:
    /// this is the aggregation loop once the producers have finished and
    /// the channel is closed. Each counter ends exactly at its old value
    /// plus that count's share of the batch — nothing is double counted
    /// and nothing is lost.
    pub fn drain(&mut self, results: &Vec<ProcessingResult>)
        requires
            old(self).wf(),
            old(self).board().total_processed() + results@.len() <= u64::MAX,
            old(self).board().errors_count() + results@.len() <= u64::MAX,
        ensures
            final(self).wf(),
            final(self).board().total_processed() as int == old(self).board().total_processed()
                + count_ok(results@),
            final(self).board().errors_count() as int == old(self).board().errors_count()
                + count_errors(results@),
            final(self).board().logs_processed() as int == old(self).board().logs_processed()
                + count_ok_logs(results@),
            final(self).board().financial_processed() as int == old(
                self,
            ).board().financial_processed() + count_ok_financial(results@),
            final(self).board().code_processed() as int == old(self).board().code_processed()
                + count_ok_code(results@),
            forall|p: AuditPriority|
                #[trigger] final(self).board().stats().count_for(p) as int == old(
                    self,
                ).board().stats().count_for(p) + count_ok_priority(results@, p),
            final(self).board().times().len() == (if old(self).board().times().len() + count_ok(
                results@,
            ) <= RESULT_WINDOW {
                old(self).board().times().len() + count_ok(results@)
            } else {
                RESULT_WINDOW as int
            }),
            final(self).board().peak() >= old(self).board().peak(),
    {
        let mut i: usize = 0;
        proof {
            assert(results@.subrange(0, 0) =~= Seq::<ProcessingResult>::empty());
        }
        while i < results.len()
            invariant
                self.wf(),
                i <= results@.len(),
                old(self).board().total_processed() + results@.len() <= u64::MAX,
                old(self).board().errors_count() + results@.len() <= u64::MAX,
                self.board().total_processed() as int == old(self).board().total_processed()
                    + count_ok(results@.subrange(0, i as int)),
                self.board().errors_count() as int == old(self).board().errors_count()
                    + count_errors(results@.subrange(0, i as int)),
                self.board().logs_processed() as int == old(self).board().logs_processed()
                    + count_ok_logs(results@.subrange(0, i as int)),
                self.board().financial_processed() as int == old(
                    self,
                ).board().financial_processed() + count_ok_financial(results@.subrange(0, i as int)),
                self.board().code_processed() as int == old(self).board().code_processed()
                    + count_ok_code(results@.subrange(0, i as int)),
                forall|p: AuditPriority|
                    #[trigger] self.board().stats().count_for(p) as int == old(
                        self,
                    ).board().stats().count_for(p) + count_ok_priority(
                        results@.subrange(0, i as int),
                        p,
                    ),
                self.board().times().len() == (if old(self).board().times().len() + count_ok(
                    results@.subrange(0, i as int),
                ) <= RESULT_WINDOW {
                    old(self).board().times().len() + count_ok(results@.subrange(0, i as int))
                } else {
                    RESULT_WINDOW as int
                }),
                self.board().peak() >= old(self).board().peak(),
            decreases results@.len() - i,
        {
            proof {
                lemma_counts_partition(results@.subrange(0, i as int));
            }
            self.update(&results[i]);
            proof {
                assert(results@.subrange(0, i as int + 1).drop_last() =~= results@.subrange(
                    0,
                    i as int,
                ));
                lemma_counts_push(results@.subrange(0, i as int), results@[i as int]);
                assert(results@.subrange(0, i as int).push(results@[i as int]) =~= results@.subrange(
                    0,
                    i as int + 1,
                ));
            }
            i = i + 1;
        }
        proof {
            assert(results@.subrange(0, results@.len() as int) =~= results@);
        }
    }

    /// A snapshot of the dashboard at the clock's current reading.
    pub fn snapshot(&self) -> (r: DashboardView)
        requires
            self.wf(),
        ensures
            r.total_processed == self.board().total_processed(),
            r.logs_processed == self.board().logs_processed(),
            r.financial_processed == self.board().financial_processed(),
            r.code_processed == self.board().code_processed(),
            r.priority_stats == self.board().stats(),
            r.errors == self.board().errors_count(),
            r.processing_times_micros@ == self.board().times(),
            r.peak_throughput_milli_ops == self.board().peak(),
            r.throughput_now_milli_ops == spec_throughput_milli_ops(
                r.total_processed,
                r.elapsed_micros,
            ),
            self.board().times().len() == 0 ==> r.avg_processing_micros is None
                && r.min_processing_micros is None && r.max_processing_micros is None,
            self.board().times().len() > 0 ==> r.avg_processing_micros == Some(
                (seq_sum(self.board().times()) / self.board().times().len() as int) as u64,
            ) && r.min_processing_micros == Some(seq_min(self.board().times()))
                && r.max_processing_micros == Some(seq_max(self.board().times())),
    {
        self.dashboard.snapshot()
    }

    /// A snapshot at a given clock reading, for deterministic use.
    pub fn snapshot_at(&self, elapsed_micros: u64) -> (r: DashboardView)
        requires
            self.wf(),
        ensures
            r.total_processed == self.board().total_processed(),
            r.logs_processed == self.board().logs_processed(),
            r.financial_processed == self.board().financial_processed(),
            r.code_processed == self.board().code_processed(),
            r.priority_stats == self.board().stats(),
            r.errors == self.board().errors_count(),
            r.processing_times_micros@ == self.board().times(),
            r.peak_throughput_milli_ops == self.board().peak(),
            r.elapsed_micros == elapsed_micros,
            r.throughput_now_milli_ops == spec_throughput_milli_ops(
                self.board().total_processed(),
                elapsed_micros,
            ),
            self.board().times().len() == 0 ==> r.avg_processing_micros is None
                && r.min_processing_micros is None && r.max_processing_micros is None,
            self.board().times().len() > 0 ==> r.avg_processing_micros == Some(
                (seq_sum(self.board().times()) / self.board().times().len() as int) as u64,
            ) && r.min_processing_micros == Some(seq_min(self.board().times()))
                && r.max_processing_micros == Some(seq_max(self.board().times())),
    {
        self.dashboard.snapshot_at(elapsed_micros)
    }
}

} // verus!
