//! The whole pipeline, run sequentially: generate a batch, dispatch it
//! round-robin through a pool, drain every result into a fresh aggregator,
//! and snapshot the dashboard. The concurrent runner performs the same
//! steps with real tasks and a channel; this function is the model that
//! pins what any interleaving of it must add up to.

use vstd::prelude::*;
use crate::aggregator::{
    count_errors, count_ok, lemma_counts_partition, lemma_error_free_batch, Aggregator,
};
use crate::dashboard::{DashboardView, RESULT_WINDOW};
use crate::generator::generate_high_frequency_audits;
use crate::rng::AuditRng;
use crate::worker::{result_matches, WorkerPool};

verus! {

/// Generates `count` events, processes every one of them through a pool of
/// `pool_size` workers, aggregates the drained results, and reports the
/// snapshot: every event is accounted for exactly once, as a success or as
/// an error, and with the error injection turned off every event counts as
/// processed.
pub fn run_audit_pipeline(
    count: usize,
    pool_size: usize,
    error_rate_per_10000: u64,
    rng: &mut AuditRng,
    now_micros: u64,
) -> (v: DashboardView)
    requires
        1 <= pool_size <= 0xFFFF_FFFF,
        error_rate_per_10000 <= 10000,
        count < u64::MAX,
    ensures
        v.total_processed + v.errors == count,
        v.total_processed as int == v.logs_processed + v.financial_processed + v.code_processed,
        v.total_processed as int == v.priority_stats.low + v.priority_stats.medium
            + v.priority_stats.high + v.priority_stats.critical,
        v.processing_times_micros@.len() == (if v.total_processed <= RESULT_WINDOW as u64 {
            v.total_processed as int
        } else {
            RESULT_WINDOW as int
        }),
        error_rate_per_10000 == 0 ==> v.errors == 0 && v.total_processed == count,
{
    let events = generate_high_frequency_audits(count, rng, now_micros);
    let ghost event_seq = events@;
    let mut pool = WorkerPool::new(pool_size, error_rate_per_10000);
    pool.process_batch(events, rng);
    let results = pool.take_results();
    proof {
        lemma_counts_partition(results@);
        if error_rate_per_10000 == 0 {
            assert forall|j: int| 0 <= j < results@.len() implies !(#[trigger] results@[j]).is_error() by {
                assert(result_matches(results@[0 + j], event_seq[j], 0));
            }
            lemma_error_free_batch(results@);
        }
    }
    let mut agg = Aggregator::new();
    agg.drain(&results);
    proof {
        assert(agg.board().total_processed() == count_ok(results@));
        assert(agg.board().errors_count() == count_errors(results@));
    }
    agg.snapshot()
}

} // verus!
