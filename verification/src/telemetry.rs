//! Per-core utilisation samples and their mean.
//!
//! Utilisation is held in fixed point, in hundredths of a percent, so that
//! [`FULL_LOAD`] stands for a core that is busy all the time.

use vstd::prelude::*;

verus! {

/// The utilisation of a fully busy core, in hundredths of a percent.
pub const FULL_LOAD: u32 = 10_000;

/// The utilisation of one logical core, with the core's label.
#[derive(Clone, Debug, PartialEq, Eq)]
pub struct CpuUsage {
    /// Utilisation in hundredths of a percent.
    pub usage: u32,
    pub name: String,
}

/// The sum of the utilisations of `cpus`.
pub open spec fn usage_sum(cpus: Seq<CpuUsage>) -> nat
    decreases cpus.len(),
{
    if cpus.len() == 0 {
        0
    } else {
        usage_sum(cpus.drop_last()) + cpus.last().usage as nat
    }
}

/// The arithmetic mean of the utilisations of `cpus`, rounded down; there is none
/// for an empty sample.
pub open spec fn mean_usage(cpus: Seq<CpuUsage>) -> Option<nat> {
    if cpus.len() == 0 {
        None
    } else {
        Some(usage_sum(cpus) / cpus.len())
    }
}

/// The mean does not exceed the largest utilisation of the sample: a sample in
/// which no core exceeds `top` has a mean of at most `top`.
pub proof fn lemma_mean_bounded(cpus: Seq<CpuUsage>, top: nat)
    requires
        cpus.len() > 0,
        forall|i: int| 0 <= i < cpus.len() ==> cpus[i].usage <= top,
    ensures
        mean_usage(cpus) matches Some(m) && m <= top,
{
    lemma_usage_sum_at_most(cpus, top);
    let n = cpus.len();
    let s = usage_sum(cpus);
    assert(s / n <= top) by (nonlinear_arith)
        requires
            n > 0,
            s <= n * top,
    ;
}

/// A sample in which no core exceeds `top` sums to at most its length times `top`.
pub proof fn lemma_usage_sum_at_most(cpus: Seq<CpuUsage>, top: nat)
    requires
        forall|i: int| 0 <= i < cpus.len() ==> cpus[i].usage <= top,
    ensures
        usage_sum(cpus) <= cpus.len() * top,
    decreases cpus.len(),
{
    if cpus.len() > 0 {
        let front = cpus.drop_last();
        assert forall|i: int| 0 <= i < front.len() implies front[i].usage <= top by {
            assert(front[i] == cpus[i]);
        }
        lemma_usage_sum_at_most(front, top);
        assert(cpus.last().usage <= top);
        assert((cpus.len() - 1) * top + top == cpus.len() * top) by (nonlinear_arith);
    }
}

/// The mean utilisation over the cores of one sample, in hundredths of a percent
/// and rounded down. An empty sample has no mean.
pub fn avg_percent_usage_cpu(cpus: &Vec<CpuUsage>) -> (mean: Option<u32>)
    ensures
        mean is Some <==> cpus@.len() > 0,
        mean matches Some(m) ==> mean_usage(cpus@) == Some(m as nat),
{
    let n = cpus.len();
    if n == 0 {
        return None;
    }
    let mut acc: u128 = 0;
    let mut i: usize = 0;
    while i < n
        invariant
            n == cpus@.len(),
            i <= n,
            acc == usage_sum(cpus@.take(i as int)),
            acc <= i * u32::MAX,
        decreases n - i,
    {
        proof {
            assert(cpus@.take(i + 1).drop_last() =~= cpus@.take(i as int));
            assert(i * u32::MAX + u32::MAX == (i + 1) * u32::MAX) by (nonlinear_arith);
            assert(i * u32::MAX <= usize::MAX * u32::MAX) by (nonlinear_arith)
                requires
                    i <= usize::MAX,
            ;
        }
        acc = acc + cpus[i].usage as u128;
        i = i + 1;
    }
    proof {
        assert(cpus@.take(n as int) =~= cpus@);
        let s = usage_sum(cpus@);
        let len = n as nat;
        assert(s / len <= u32::MAX) by (nonlinear_arith)
            requires
                len > 0,
                s <= len * u32::MAX,
        ;
    }
    Some((acc / (n as u128)) as u32)
}

} // verus!
