//! The worker model: per-event simulated processing profiles, error
//! injection, and the round-robin worker pool that turns a batch of events
//! into exactly one result per event.
//!
//! The pool here is the sequential model of the pipeline: `submit` assigns
//! an event to pool member `submitted % pool_size`, executes it, and
//! appends the result to the pool's output queue. The concurrent runner
//! around the library performs the same dispatch with real tasks and a real
//! channel, and hands measured wall times to the same result type.

use vstd::prelude::*;
use vstd::string::StringExecFns;
use crate::event::{AuditType, ProcessingResult};
use crate::rng::AuditRng;
use crate::text::u64_to_decimal;

verus! {

/// The message carried by an injected simulated error.
pub open spec fn error_message_chars() -> Seq<char> {
    "Error de procesamiento simulado"@
}

/// The simulated analysis cost of a code audit: one unit per issue for each
/// of the ten thousand scanned positions, in closed form.
pub open spec fn spec_code_analysis_units(issues: u32) -> int {
    49_995_000 * issues
}

/// The simulated analysis cost of a code audit. The concurrent runner burns
/// this much work on a blocking task; the sequential model only records it.
pub fn code_analysis_units(issues: u32) -> (r: u64)
    ensures
        r == spec_code_analysis_units(issues),
{
    49_995_000u64 * (issues as u64)
}

/// The per-variant simulated duration profile, in microseconds: logs take a
/// uniform micro-duration in `[50, 200)`, financial audits a whole number
/// of milliseconds in `[1, 5)`, and code analysis a duration proportional
/// to the issues found.
pub open spec fn duration_in_profile(a: AuditType, d: u64) -> bool {
    match a {
        AuditType::Log { .. } => 50 <= d < 200,
        AuditType::Financial { .. } => 1000 <= d < 5000 && d % 1000 == 0,
        AuditType::CodeAnalysis { issues_found, .. } => d == spec_code_analysis_units(
            issues_found,
        ) / 1000,
    }
}

/// The financial simulated duration for one drawn whole-millisecond count:
/// the draw scaled to microseconds, exactly.
pub fn financial_duration_micros(draw_ms: u64) -> (d: u64)
    requires
        1 <= draw_ms < 5,
    ensures
        d == 1000 * draw_ms,
{
    1000 * draw_ms
}

/// Draws the simulated processing duration for one event.
pub fn simulated_duration_micros(audit: &AuditType, rng: &mut AuditRng) -> (d: u64)
    ensures
        duration_in_profile(*audit, d),
{
    match audit {
        AuditType::Log { .. } => rng.next_between(50, 200),
        AuditType::Financial { .. } => financial_duration_micros(rng.next_between(1, 5)),
        AuditType::CodeAnalysis { issues_found, .. } => code_analysis_units(*issues_found) / 1000,
    }
}

/// The error decision for one uniform draw in `[0, 10000)`: an error
/// exactly when the draw falls below the rate, so over the uniform draw
/// the error fires with probability `error_rate_per_10000 / 10000`.
pub fn error_for_draw(draw: u64, error_rate_per_10000: u64) -> (r: Option<String>)
    requires
        draw < 10000,
        error_rate_per_10000 <= 10000,
    ensures
        r is Some <==> draw < error_rate_per_10000,
        r matches Some(m) ==> m@ == error_message_chars(),
{
    if draw < error_rate_per_10000 {
        Some("Error de procesamiento simulado".to_owned())
    } else {
        None
    }
}

/// Draws the simulated error: one uniform draw, decided by
/// `error_for_draw`. Whatever the draw, the only error ever injected is
/// the fixed message; a zero rate injects none and a full rate always
/// does.
pub fn draw_error(rng: &mut AuditRng, error_rate_per_10000: u64) -> (r: Option<String>)
    requires
        error_rate_per_10000 <= 10000,
    ensures
        error_rate_per_10000 == 0 ==> r is None,
        error_rate_per_10000 == 10000 ==> r is Some,
        r matches Some(m) ==> m@ == error_message_chars(),
{
    error_for_draw(rng.next_between(0, 10000), error_rate_per_10000)
}

/// What the pool promises of each result it emits: the event is carried
/// through unchanged, the recorded duration fits the event's profile, the
/// only error ever injected is the fixed simulated message, and a zero rate
/// injects none.
pub open spec fn result_matches(r: ProcessingResult, audit: AuditType, error_rate: u64) -> bool {
    &&& r.audit == audit
    &&& duration_in_profile(audit, r.duration_micros)
    &&& (error_rate == 0 ==> !r.is_error())
    &&& (r.error matches Some(m) ==> m@ == error_message_chars())
}

/// One execution unit of the pool.
pub struct Auditor {
    pub id: u32,
    pub name: String,
    pub worker_pool_size: usize,
}

impl Auditor {
    pub fn new(id: u32, name: &str, worker_pool_size: usize) -> (r: Auditor)
        ensures
            r.id == id,
            r.name@ == name@,
            r.worker_pool_size == worker_pool_size,
    {
        Auditor { id, name: name.to_owned(), worker_pool_size }
    }

    /// Turns one event into its result: draws the simulated duration and
    /// the simulated error. The error is reported in the result, never
    /// thrown, and never aborts the event.
    pub fn execute(
        &self,
        audit: AuditType,
        rng: &mut AuditRng,
        error_rate_per_10000: u64,
    ) -> (r: ProcessingResult)
        requires
            error_rate_per_10000 <= 10000,
        ensures
            result_matches(r, audit, error_rate_per_10000),
    {
        let duration_micros = simulated_duration_micros(&audit, rng);
        let error = draw_error(rng, error_rate_per_10000);
        ProcessingResult { audit, duration_micros, error }
    }
}

/// Relies on num_cpus::get: the number of logical CPUs of the system,
/// documented to always be at least one.
#[verifier::external_body]
fn logical_cpu_count() -> (r: usize)
    ensures
        1 <= r,
{
    num_cpus::get()
}

/// A fixed set of workers fed round-robin, with the queue of results they
/// emit. The queue models the result channel: the sequential pool appends
/// to it exactly one result per submitted event.
pub struct WorkerPool {
    auditors: Vec<Auditor>,
    submitted: u64,
    error_rate_per_10000: u64,
    results: Vec<ProcessingResult>,
}

impl WorkerPool {
    pub closed spec fn pool_size(self) -> int {
        self.auditors@.len() as int
    }

    pub closed spec fn submitted_count(self) -> u64 {
        self.submitted
    }

    pub closed spec fn error_rate(self) -> u64 {
        self.error_rate_per_10000
    }

    pub closed spec fn results_seq(self) -> Seq<ProcessingResult> {
        self.results@
    }

    pub open spec fn wf(self) -> bool {
        1 <= self.pool_size() && self.error_rate() <= 10000
    }

    /// A pool of `pool_size` workers, each named after its index. The rate
    /// of injected errors is per ten thousand events; the pipeline default
    /// is one percent.
    pub fn new(pool_size: usize, error_rate_per_10000: u64) -> (r: WorkerPool)
        requires
            1 <= pool_size <= 0xFFFF_FFFF,
            error_rate_per_10000 <= 10000,
        ensures
            r.wf(),
            r.pool_size() == pool_size,
            r.submitted_count() == 0,
            r.results_seq().len() == 0,
            r.error_rate() == error_rate_per_10000,
    {
        let mut auditors: Vec<Auditor> = Vec::new();
        let mut i: usize = 0;
        while i < pool_size
            invariant
                i <= pool_size <= 0xFFFF_FFFF,
                auditors@.len() == i,
            decreases pool_size - i,
        {
            let name = "WORKER-".to_owned().concat(u64_to_decimal(i as u64).as_str());
            auditors.push(Auditor::new(i as u32, name.as_str(), 100));
            i += 1;
        }
        WorkerPool { auditors, submitted: 0, error_rate_per_10000, results: Vec::new() }
    }

    /// A pool sized to the logical CPU count of the machine.
    pub fn with_default_size(error_rate_per_10000: u64) -> (r: WorkerPool)
        requires
            error_rate_per_10000 <= 10000,
        ensures
            r.wf(),
            r.submitted_count() == 0,
            r.results_seq().len() == 0,
            r.error_rate() == error_rate_per_10000,
    {
        let n = logical_cpu_count();
        let n = if n > 0xFFFF_FFFF {
            0xFFFF_FFFF
        } else {
            n
        };
        WorkerPool::new(n, error_rate_per_10000)
    }

    /// Dispatches one event: round-robin assignment to worker
    /// `submitted % pool_size`, execution, and one result appended to the
    /// output queue. Returns the index of the worker that took the event.
    pub fn submit(&mut self, audit: AuditType, rng: &mut AuditRng) -> (idx: usize)
        requires
            old(self).wf(),
            old(self).submitted_count() < u64::MAX,
        ensures
            final(self).wf(),
            final(self).pool_size() == old(self).pool_size(),
            final(self).error_rate() == old(self).error_rate(),
            idx == old(self).submitted_count() as int % old(self).pool_size(),
            final(self).submitted_count() == old(self).submitted_count() + 1,
            final(self).results_seq() == old(self).results_seq().push(
                final(self).results_seq().last(),
            ),
            result_matches(final(self).results_seq().last(), audit, old(self).error_rate()),
    {
        let pool_size = self.auditors.len();
        let idx = (self.submitted % (pool_size as u64)) as usize;
        let result = self.auditors[idx].execute(audit, rng, self.error_rate_per_10000);
        self.submitted = self.submitted + 1;
        self.results.push(result);
        proof {
            assert(self.results_seq() =~= old(self).results_seq().push(
                self.results_seq().last(),
            ));
        }
        idx
    }

    /// Dispatches a whole batch in order. However many workers the pool
    /// has, exactly one result per event joins the queue, and the result at
    /// each position belongs to the event submitted at that position.
    pub fn process_batch(&mut self, events: Vec<AuditType>, rng: &mut AuditRng)
        requires
            old(self).wf(),
            old(self).submitted_count() + events@.len() <= u64::MAX,
        ensures
            final(self).wf(),
            final(self).pool_size() == old(self).pool_size(),
            final(self).error_rate() == old(self).error_rate(),
            final(self).submitted_count() == old(self).submitted_count() + events@.len(),
            final(self).results_seq().len() == old(self).results_seq().len() + events@.len(),
            final(self).results_seq().subrange(0, old(self).results_seq().len() as int) == old(
                self,
            ).results_seq(),
            forall|j: int|
                0 <= j < events@.len() ==> result_matches(
                    #[trigger] final(self).results_seq()[old(self).results_seq().len() + j],
                    events@[j],
                    old(self).error_rate(),
                ),
    {
        let ghost all_events = events@;
        let ghost base = self.results@.len() as int;
        let mut events = events;
        let total: usize = events.len();
        let mut k: usize = 0;
        proof {
            assert(events@ =~= all_events.skip(0));
        }
        while events.len() > 0
            invariant
                self.wf(),
                self.pool_size() == old(self).pool_size(),
                self.error_rate() == old(self).error_rate(),
                total == all_events.len(),
                k + events@.len() == total,
                events@ =~= all_events.skip(k as int),
                self.submitted_count() == old(self).submitted_count() + k,
                old(self).submitted_count() + total <= u64::MAX,
                self.results_seq().len() == base + k,
                self.results_seq().subrange(0, base) =~= old(self).results_seq(),
                base == old(self).results_seq().len(),
                forall|j: int|
                    0 <= j < k ==> result_matches(
                        #[trigger] self.results_seq()[base + j],
                        all_events[j],
                        old(self).error_rate(),
                    ),
            decreases events@.len(),
        {
            let ghost pre = events@;
            let audit = events.remove(0);
            proof {
                assert(audit == pre[0]);
                assert(pre[0] == all_events[k as int]);
                assert(events@ =~= all_events.skip(k as int + 1));
            }
            let ghost before = self.results@;
            self.submit(audit, rng);
            proof {
                assert(self.results_seq().subrange(0, base) =~= before.subrange(0, base));
            }
            k = k + 1;
        }
        proof {
            assert(self.results_seq().subrange(0, base) == old(self).results_seq());
        }
    }

    /// How many workers the pool owns.
    pub fn size(&self) -> (r: usize)
        ensures
            r == self.pool_size(),
    {
        self.auditors.len()
    }

    /// The results emitted so far, in submission order.
    pub fn results(&self) -> (r: &Vec<ProcessingResult>)
        ensures
            r@ == self.results_seq(),
    {
        &self.results
    }

    /// Drains the output queue: hands every emitted result over, in
    /// submission order, leaving the queue empty. This models closing and
    /// draining the result channel.
    pub fn take_results(&mut self) -> (r: Vec<ProcessingResult>)
        ensures
            r@ == old(self).results_seq(),
            final(self).results_seq().len() == 0,
            final(self).pool_size() == old(self).pool_size(),
            final(self).error_rate() == old(self).error_rate(),
            final(self).submitted_count() == old(self).submitted_count(),
            final(self).wf() == old(self).wf(),
    {
        let mut taken: Vec<ProcessingResult> = Vec::new();
        core::mem::swap(&mut taken, &mut self.results);
        taken
    }
}

} // verus!
