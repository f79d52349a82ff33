//! Exact statistics over the rolling window of processing times, and the
//! instantaneous-throughput formula shared by the dashboard and the load
//! report.

use vstd::prelude::*;

verus! {

pub open spec fn min_u64(a: u64, b: u64) -> u64 {
    if a <= b {
        a
    } else {
        b
    }
}

pub open spec fn max_u64(a: u64, b: u64) -> u64 {
    if a >= b {
        a
    } else {
        b
    }
}

pub open spec fn seq_sum(s: Seq<u64>) -> int
    decreases s.len(),
{
    if s.len() == 0 {
        0
    } else {
        seq_sum(s.drop_last()) + s.last()
    }
}

/// The minimum of the entries; the identity `u64::MAX` when there are none.
pub open spec fn seq_min(s: Seq<u64>) -> u64
    decreases s.len(),
{
    if s.len() == 0 {
        u64::MAX
    } else {
        min_u64(seq_min(s.drop_last()), s.last())
    }
}

/// The maximum of the entries; the identity `0` when there are none.
pub open spec fn seq_max(s: Seq<u64>) -> u64
    decreases s.len(),
{
    if s.len() == 0 {
        0
    } else {
        max_u64(seq_max(s.drop_last()), s.last())
    }
}

pub proof fn lemma_sum_bound(s: Seq<u64>)
    ensures
        0 <= seq_sum(s) <= s.len() * u64::MAX,
    decreases s.len(),
{
    if s.len() == 0 {
    } else {
        lemma_sum_bound(s.drop_last());
        assert((s.len() - 1) * u64::MAX + u64::MAX == s.len() * u64::MAX) by (nonlinear_arith);
    }
}

/// The exact sum of the window, in an accumulator wide enough for the
/// bounded window.
pub fn window_sum(v: &Vec<u64>) -> (r: u128)
    requires
        v@.len() <= 10000,
    ensures
        r == seq_sum(v@),
{
    let mut acc: u128 = 0;
    let mut i: usize = 0;
    proof {
        assert(v@.subrange(0, 0) =~= Seq::<u64>::empty());
    }
    while i < v.len()
        invariant
            i <= v@.len() <= 10000,
            acc == seq_sum(v@.subrange(0, i as int)),
        decreases v@.len() - i,
    {
        proof {
            lemma_sum_bound(v@.subrange(0, i as int));
            assert(i as int * u64::MAX <= 10000 * u64::MAX) by (nonlinear_arith)
                requires
                    i <= 10000,
            ;
            assert(v@.subrange(0, i as int + 1).drop_last() =~= v@.subrange(0, i as int));
            assert(v@.subrange(0, i as int + 1).last() == v@[i as int]);
        }
        acc = acc + (v[i] as u128);
        i = i + 1;
    }
    proof {
        assert(v@.subrange(0, v@.len() as int) =~= v@);
    }
    acc
}

/// The smallest entry of the window, if there is one.
pub fn window_min(v: &Vec<u64>) -> (r: Option<u64>)
    ensures
        v@.len() == 0 ==> r is None,
        v@.len() > 0 ==> r == Some(seq_min(v@)),
{
    if v.len() == 0 {
        return None;
    }
    let mut acc: u64 = u64::MAX;
    let mut i: usize = 0;
    proof {
        assert(v@.subrange(0, 0) =~= Seq::<u64>::empty());
    }
    while i < v.len()
        invariant
            i <= v@.len(),
            acc == seq_min(v@.subrange(0, i as int)),
        decreases v@.len() - i,
    {
        proof {
            assert(v@.subrange(0, i as int + 1).drop_last() =~= v@.subrange(0, i as int));
            assert(v@.subrange(0, i as int + 1).last() == v@[i as int]);
        }
        let x = v[i];
        if x < acc {
            acc = x;
        }
        i = i + 1;
    }
    proof {
        assert(v@.subrange(0, v@.len() as int) =~= v@);
    }
    Some(acc)
}

/// The largest entry of the window, if there is one.
pub fn window_max(v: &Vec<u64>) -> (r: Option<u64>)
    ensures
        v@.len() == 0 ==> r is None,
        v@.len() > 0 ==> r == Some(seq_max(v@)),
{
    if v.len() == 0 {
        return None;
    }
    let mut acc: u64 = 0;
    let mut i: usize = 0;
    proof {
        assert(v@.subrange(0, 0) =~= Seq::<u64>::empty());
    }
    while i < v.len()
        invariant
            i <= v@.len(),
            acc == seq_max(v@.subrange(0, i as int)),
        decreases v@.len() - i,
    {
        proof {
            assert(v@.subrange(0, i as int + 1).drop_last() =~= v@.subrange(0, i as int));
            assert(v@.subrange(0, i as int + 1).last() == v@[i as int]);
        }
        let x = v[i];
        if x > acc {
            acc = x;
        }
        i = i + 1;
    }
    proof {
        assert(v@.subrange(0, v@.len() as int) =~= v@);
    }
    Some(acc)
}

/// The mean entry of the window, rounded down, if there is one.
pub fn window_avg(v: &Vec<u64>) -> (r: Option<u64>)
    requires
        v@.len() <= 10000,
    ensures
        v@.len() == 0 ==> r is None,
        v@.len() > 0 ==> r == Some((seq_sum(v@) / v@.len() as int) as u64),
{
    if v.len() == 0 {
        return None;
    }
    let sum = window_sum(v);
    let len = v.len();
    let mean = sum / (len as u128);
    proof {
        lemma_sum_bound(v@);
        assert(seq_sum(v@) / v@.len() as int <= u64::MAX) by (nonlinear_arith)
            requires
                0 < v@.len(),
                0 <= seq_sum(v@) <= v@.len() * u64::MAX,
        ;
    }
    Some(mean as u64)
}

/// Instantaneous throughput in milli-operations per second: a thousand
/// times `total / elapsedSeconds`, rounded down, saturated at the type
/// bound, and zero before the clock has advanced.
pub open spec fn spec_throughput_milli_ops(total: u64, elapsed_micros: u64) -> u64 {
    if elapsed_micros == 0 {
        0
    } else {
        let t = total as int * 1_000_000_000 / elapsed_micros as int;
        if t > u64::MAX {
            u64::MAX
        } else {
            t as u64
        }
    }
}

pub fn throughput_milli_ops(total: u64, elapsed_micros: u64) -> (r: u64)
    ensures
        r == spec_throughput_milli_ops(total, elapsed_micros),
{
    if elapsed_micros == 0 {
        0
    } else {
        let t: u128 = (total as u128) * 1_000_000_000 / (elapsed_micros as u128);
        if t > (u64::MAX as u128) {
            u64::MAX
        } else {
            t as u64
        }
    }
}

} // verus!
