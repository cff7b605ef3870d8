//! CPU utilization: clamping, the hyperthread fold, and the aggregate
//! mean.
//!
//! The application takes two time-separated samples of per-logical-
//! thread utilization (at least one second apart, to damp sampling
//! noise) and hands the second sample here as plain integers. This
//! module clamps each thread figure into [0, 100] percent, folds
//! hyperthread pairs into physical-core figures by averaging adjacent
//! thread pairs when the platform reports more logical threads than
//! physical cores — else the thread figures pass through unchanged —
//! and aggregates the unweighted mean of the per-core figures,
//! rounded toward zero; with no cores resolved the aggregate is 0.

use vstd::arithmetic::div_mod::lemma_div_is_ordered;
use vstd::arithmetic::div_mod::lemma_div_multiples_vanish;
use vstd::arithmetic::div_mod::lemma_div_pos_is_pos;
use vstd::prelude::*;

verus! {

/// Upper plausibility clamp of a utilization figure, in percent.
pub const UTIL_MAX_PERCENT: i32 = 100;

/// A raw per-thread sample clamped into [0, 100] percent.
pub open spec fn spec_clamp_percent(v: i32) -> i32 {
    if v < 0 {
        0
    } else if v > UTIL_MAX_PERCENT {
        UTIL_MAX_PERCENT
    } else {
        v
    }
}

/// Every value of the sequence lies in [0, 100].
pub open spec fn all_percent(s: Seq<i32>) -> bool {
    forall|i: int| 0 <= i < s.len() ==> 0 <= #[trigger] s[i] <= UTIL_MAX_PERCENT
}

/// The per-thread figures clamped into [0, 100].
pub open spec fn spec_clamped(raw: Seq<i32>) -> Seq<i32> {
    raw.map_values(|v: i32| spec_clamp_percent(v))
}

/// The hyperthread fold from thread index `idx` on: while a further
/// thread pair exists and its core slot is within the physical-core
/// count, the pair's mean (truncated) becomes one core figure; the
/// fold stops where no further pair fits.
pub open spec fn spec_fold_cores(t: Seq<i32>, cores: int, idx: int) -> Seq<i32>
    decreases t.len() - idx,
{
    if 0 <= idx && idx + 1 < t.len() && idx / 2 < cores {
        seq![(((t[idx] + t[idx + 1]) / 2) as i32)] + spec_fold_cores(t, cores, idx + 2)
    } else {
        Seq::<i32>::empty()
    }
}

/// The fold never yields more core figures than the physical-core
/// count leaves room for from `idx` on.
proof fn lemma_fold_cores_len(t: Seq<i32>, cores: int, idx: int)
    requires
        0 <= idx,
    ensures
        idx / 2 < cores ==> spec_fold_cores(t, cores, idx).len() <= cores - idx / 2,
        idx / 2 >= cores ==> spec_fold_cores(t, cores, idx).len() == 0,
    decreases t.len() - idx,
{
    if 0 <= idx && idx + 1 < t.len() && idx / 2 < cores {
        lemma_fold_cores_len(t, cores, idx + 2);
        assert((idx + 2) / 2 == idx / 2 + 1) by (nonlinear_arith)
            requires
                idx >= 0,
        ;
    }
}

/// The sum of a sequence of percent figures.
pub open spec fn sum_i32(s: Seq<i32>) -> int
    decreases s.len(),
{
    if s.len() == 0 {
        0
    } else {
        sum_i32(s.drop_last()) + s.last()
    }
}

/// The unweighted mean rounded toward zero, or 0 of an empty sequence.
pub open spec fn spec_mean(s: Seq<i32>) -> int {
    if s.len() == 0 {
        0
    } else {
        sum_i32(s) / s.len() as int
    }
}

/// One round of CPU utilization figures: per logical thread, per
/// physical core, and the aggregate.
#[derive(Clone, Debug)]
pub struct CpuUsage {
    pub threads: Vec<i32>,
    pub cores: Vec<i32>,
    pub total: i32,
}

/// Clamps the raw per-thread sample; when more logical threads than
/// physical cores are reported, folds adjacent thread pairs into
/// per-core figures, else passes the thread figures through
/// unchanged; and aggregates their mean. Never more core figures than
/// physical cores.
pub fn fold_cpu_usage(raw_threads: &Vec<i32>, physical_cores: usize) -> (r: CpuUsage)
    ensures
        r.threads@ == spec_clamped(raw_threads@),
        r.cores@ == if raw_threads@.len() > physical_cores {
            spec_fold_cores(spec_clamped(raw_threads@), physical_cores as int, 0)
        } else {
            spec_clamped(raw_threads@)
        },
        r.cores@.len() <= physical_cores,
        r.total as int == spec_mean(r.cores@),
{
    let mut threads: Vec<i32> = Vec::new();
    let mut i: usize = 0;
    while i < raw_threads.len()
        invariant
            i <= raw_threads@.len(),
            threads@.len() == i,
            forall|k: int|
                0 <= k < i ==> #[trigger] threads@[k] == spec_clamp_percent(raw_threads@[k]),
        decreases raw_threads@.len() - i,
    {
        let v = raw_threads[i];
        let c: i32 = if v < 0 {
            0
        } else if v > UTIL_MAX_PERCENT {
            UTIL_MAX_PERCENT
        } else {
            v
        };
        threads.push(c);
        i = i + 1;
    }
    proof {
        assert(threads@ =~= spec_clamped(raw_threads@));
        assert(all_percent(threads@));
    }
    let nt = threads.len();
    let mut cores: Vec<i32> = Vec::new();
    if nt > physical_cores {
        let mut idx: usize = 0;
        while idx < nt - 1 && idx / 2 < physical_cores
            invariant
                nt == threads@.len(),
                physical_cores < nt,
                idx <= nt,
                all_percent(threads@),
                all_percent(cores@),
                spec_fold_cores(threads@, physical_cores as int, 0) == cores@ + spec_fold_cores(
                    threads@,
                    physical_cores as int,
                    idx as int,
                ),
            decreases nt - idx,
        {
            let ghost before = cores@;
            let ghost tail = spec_fold_cores(threads@, physical_cores as int, idx as int);
            let c = (threads[idx] + threads[idx + 1]) / 2;
            cores.push(c);
            proof {
                assert(cores@ + spec_fold_cores(threads@, physical_cores as int, idx as int + 2)
                    =~= before + tail);
            }
            idx = idx + 2;
        }
        proof {
            assert(spec_fold_cores(threads@, physical_cores as int, idx as int) =~= Seq::<
                i32,
            >::empty());
            assert(cores@ + Seq::<i32>::empty() =~= cores@);
            lemma_fold_cores_len(threads@, physical_cores as int, 0);
        }
    } else {
        // No more threads than cores: the thread figures pass through
        // unchanged.
        let mut k: usize = 0;
        while k < nt
            invariant
                nt == threads@.len(),
                k <= nt,
                cores@ =~= threads@.take(k as int),
            decreases nt - k,
        {
            cores.push(threads[k]);
            k = k + 1;
        }
        proof {
            assert(threads@.take(nt as int) =~= threads@);
            assert(all_percent(cores@));
        }
    }
    let n = cores.len();
    let mut total: i128 = 0;
    let mut j: usize = 0;
    while j < n
        invariant
            n == cores@.len(),
            j <= n,
            all_percent(cores@),
            total == sum_i32(cores@.take(j as int)),
            0 <= total <= (j as int) * 100,
        decreases n - j,
    {
        let ghost prefix = cores@.take(j as int);
        proof {
            assert(cores@.take(j as int + 1).drop_last() =~= prefix);
            assert(cores@.take(j as int + 1).last() == cores@[j as int]);
        }
        total = total + (cores[j] as i128);
        j = j + 1;
    }
    proof {
        assert(cores@.take(n as int) =~= cores@);
    }
    let total_usage: i32 = if n == 0 {
        0
    } else {
        proof {
            lemma_div_pos_is_pos(total as int, n as int);
            lemma_div_is_ordered(total as int, (n as int) * 100, n as int);
            lemma_div_multiples_vanish(100, n as int);
        }
        (total / (n as i128)) as i32
    };
    CpuUsage { threads, cores, total: total_usage }
}

} // verus!
