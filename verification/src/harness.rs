//! The load-test harness model: the decisions of the time-boxed spawning
//! loop — when to keep spawning, when to pause briefly — and the exact
//! report built from the task outcomes. The runner around the library
//! spawns the short-lived tasks, polls the clock, and feeds both back in.

use vstd::prelude::*;
use crate::stats::{spec_throughput_milli_ops, throughput_milli_ops};

verus! {

/// How many of the outcomes succeeded.
pub open spec fn count_true(s: Seq<bool>) -> int
    decreases s.len(),
{
    if s.len() == 0 {
        0
    } else {
        count_true(s.drop_last()) + if s.last() {
            1int
        } else {
            0int
        }
    }
}

pub proof fn lemma_count_true_bounds(s: Seq<bool>)
    ensures
        0 <= count_true(s) <= s.len(),
    decreases s.len(),
{
    if s.len() == 0 {
    } else {
        lemma_count_true_bounds(s.drop_last());
    }
}

/// What the harness reports after the deadline: every spawned task counted
/// exactly once as a success or a failure, and the throughput computed
/// from the measured elapsed time.
#[derive(Debug, Clone, Copy, PartialEq, Eq, Structural)]
pub struct LoadReport {
    pub total_ops: u64,
    pub successful_ops: u64,
    pub failed_ops: u64,
    pub throughput_milli_ops: u64,
    pub actual_elapsed_micros: u64,
}

/// The time-boxed burst generator: spawns short independent tasks until
/// the observed elapsed time reaches the configured duration.
pub struct LoadTestHarness {
    duration_micros: u64,
    spawned: u64,
}

impl LoadTestHarness {
    pub closed spec fn duration_micros(self) -> u64 {
        self.duration_micros
    }

    pub closed spec fn spawned_count(self) -> u64 {
        self.spawned
    }

    pub fn new(duration_micros: u64) -> (r: LoadTestHarness)
        ensures
            r.duration_micros() == duration_micros,
            r.spawned_count() == 0,
    {
        LoadTestHarness { duration_micros, spawned: 0 }
    }

    /// Whether the spawning loop is done: exactly when the observed
    /// elapsed time has reached the configured duration. Tasks already
    /// spawned are still awaited after this turns true, so the elapsed
    /// time a report carries can only be larger still.
    pub fn should_stop(&self, elapsed_micros: u64) -> (r: bool)
        ensures
            r <==> elapsed_micros >= self.duration_micros(),
    {
        elapsed_micros >= self.duration_micros
    }

    /// Counts one spawned task.
    pub fn record_spawn(&mut self)
        requires
            old(self).spawned_count() < u64::MAX,
        ensures
            final(self).spawned_count() == old(self).spawned_count() + 1,
            final(self).duration_micros() == old(self).duration_micros(),
    {
        self.spawned = self.spawned + 1;
    }

    /// How many tasks have been spawned so far.
    pub fn spawned(&self) -> (r: u64)
        ensures
            r == self.spawned_count(),
    {
        self.spawned
    }

    /// Whether the loop should yield briefly before spawning on: after
    /// every thousandth task, to avoid saturating the scheduler.
    pub fn should_pause(&self) -> (r: bool)
        ensures
            r <==> (self.spawned_count() > 0 && self.spawned_count() % 1000 == 0),
    {
        self.spawned > 0 && self.spawned % 1000 == 0
    }

    /// Builds the report from the awaited outcomes and the elapsed time
    /// measured after the last task finished: one outcome per spawned
    /// task, each counted exactly once, so the total always equals the
    /// successes plus the failures.
    pub fn report(&self, outcomes: &Vec<bool>, actual_elapsed_micros: u64) -> (r: LoadReport)
        requires
            outcomes@.len() <= u64::MAX,
        ensures
            r.total_ops == outcomes@.len(),
            r.successful_ops == count_true(outcomes@),
            r.failed_ops == outcomes@.len() - count_true(outcomes@),
            r.total_ops == r.successful_ops + r.failed_ops,
            r.throughput_milli_ops == spec_throughput_milli_ops(
                r.total_ops,
                actual_elapsed_micros,
            ),
            r.actual_elapsed_micros == actual_elapsed_micros,
    {
        let mut successes: u64 = 0;
        let mut i: usize = 0;
        proof {
            assert(outcomes@.subrange(0, 0) =~= Seq::<bool>::empty());
        }
        while i < outcomes.len()
            invariant
                i <= outcomes@.len() <= u64::MAX,
                successes == count_true(outcomes@.subrange(0, i as int)),
            decreases outcomes@.len() - i,
        {
            proof {
                lemma_count_true_bounds(outcomes@.subrange(0, i as int));
                assert(outcomes@.subrange(0, i as int + 1).drop_last() =~= outcomes@.subrange(
                    0,
                    i as int,
                ));
                assert(outcomes@.subrange(0, i as int + 1).last() == outcomes@[i as int]);
            }
            if outcomes[i] {
                successes = successes + 1;
            }
            i = i + 1;
        }
        proof {
            assert(outcomes@.subrange(0, outcomes@.len() as int) =~= outcomes@);
            lemma_count_true_bounds(outcomes@);
        }
        let total: u64 = outcomes.len() as u64;
        LoadReport {
            total_ops: total,
            successful_ops: successes,
            failed_ops: total - successes,
            throughput_milli_ops: throughput_milli_ops(total, actual_elapsed_micros),
            actual_elapsed_micros,
        }
    }
}

} // verus!
