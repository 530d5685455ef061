//! The percentage arithmetic: mean CPU load over all cores and memory load
//! as a share of total, both carried as integer hundredths of a percent, and
//! the rounding-and-clamping step that turns a reading into a gauge percent.

use vstd::arithmetic::div_mod::lemma_div_is_ordered;
use vstd::arithmetic::div_mod::lemma_div_multiples_vanish;
use vstd::arithmetic::div_mod::lemma_div_pos_is_pos;
use vstd::prelude::*;

verus! {

/// A fatal configuration error: the host cannot be monitored meaningfully.
#[derive(Clone, Copy, Debug, PartialEq, Eq, Structural)]
pub enum MonitorError {
    /// The provider reported zero logical cores.
    NoCpuCores,
    /// The provider reported zero bytes of total memory.
    NoTotalMemory,
}

/// Sum of a sequence of per-core readings.
pub open spec fn sum_of(s: Seq<u32>) -> int
    decreases s.len(),
{
    if s.len() == 0 {
        0
    } else {
        sum_of(s.drop_last()) + s.last()
    }
}

/// Mean of a sequence of per-core readings in whole percents, expressed in
/// hundredths of a percent, rounded down.
pub open spec fn cpu_mean(s: Seq<u32>) -> int
    recommends
        s.len() > 0,
{
    100 * sum_of(s) / (s.len() as int)
}

/// Memory load as hundredths of a percent of total, rounded down.
pub open spec fn memory_ratio(used: int, total: int) -> int
    recommends
        total > 0,
{
    10000 * used / total
}

/// The percent a gauge displays for a reading in hundredths: rounded to the
/// nearest whole percent and clamped to one hundred.
pub open spec fn display_percent(hundredths: int) -> int {
    let rounded = (hundredths + 50) / 100;
    if rounded > 100 {
        100
    } else {
        rounded
    }
}

/// A sum of readings that are each at most `bound` is at most `bound` times
/// the number of readings, and never negative.
proof fn lemma_sum_bounded(s: Seq<u32>, bound: int)
    requires
        0 <= bound,
        forall|i: int| 0 <= i < s.len() ==> s[i] <= bound,
    ensures
        0 <= sum_of(s) <= bound * s.len(),
    decreases s.len(),
{
    if s.len() > 0 {
        lemma_sum_bounded(s.drop_last(), bound);
        assert(bound * (s.len() - 1) + bound == bound * s.len()) by (nonlinear_arith);
    }
}

/// With at least one core, the mean over per-core readings that are each at
/// most `bound` percent is at most `bound` percent, and never negative.
pub proof fn lemma_cpu_mean_bounded(s: Seq<u32>, bound: int)
    requires
        s.len() > 0,
        0 <= bound,
        forall|i: int| 0 <= i < s.len() ==> s[i] <= bound,
    ensures
        0 <= cpu_mean(s) <= 100 * bound,
{
    let n = s.len() as int;
    lemma_sum_bounded(s, bound);
    assert(100 * sum_of(s) <= n * (100 * bound)) by (nonlinear_arith)
        requires
            sum_of(s) <= bound * n,
            0 < n,
    ;
    lemma_div_is_ordered(100 * sum_of(s), n * (100 * bound), n);
    lemma_div_multiples_vanish(100 * bound, n);
    lemma_div_pos_is_pos(100 * sum_of(s), n);
}

/// With at least one core and every per-core reading within one hundred
/// percent, the mean is within one hundred percent as well.
pub proof fn lemma_cpu_mean_in_range(s: Seq<u32>)
    requires
        s.len() > 0,
        forall|i: int| 0 <= i < s.len() ==> s[i] <= 100,
    ensures
        0 <= cpu_mean(s) <= 10000,
{
    lemma_cpu_mean_bounded(s, 100);
}

/// With used memory no larger than total, the memory reading is within one
/// hundred percent, and never negative.
pub proof fn lemma_memory_ratio_in_range(used: int, total: int)
    requires
        0 <= used <= total,
        0 < total,
    ensures
        0 <= memory_ratio(used, total) <= 10000,
{
    assert(10000 * used <= total * 10000) by (nonlinear_arith)
        requires
            used <= total,
    ;
    lemma_div_is_ordered(10000 * used, total * 10000, total);
    lemma_div_multiples_vanish(10000, total);
    lemma_div_pos_is_pos(10000 * used, total);
}

/// Mean CPU load over the given per-core readings, in hundredths of a
/// percent. Zero readings is the fatal zero-core configuration error, never
/// a division by zero.
pub fn cpu_mean_hundredths(readings: &Vec<u32>) -> (r: Result<u64, MonitorError>)
    ensures
        r is Ok <==> readings@.len() > 0,
        r is Err ==> r == Err::<u64, MonitorError>(MonitorError::NoCpuCores),
        r matches Ok(m) ==> m == cpu_mean(readings@) && m <= 100 * (u32::MAX as int),
{
    let n: usize = readings.len();
    if n == 0 {
        return Err(MonitorError::NoCpuCores);
    }
    let mut total: u128 = 0;
    let mut i: usize = 0;
    while i < n
        invariant
            n == readings@.len(),
            0 <= i <= n,
            total == sum_of(readings@.subrange(0, i as int)),
            total <= i * (u32::MAX as int),
        decreases n - i,
    {
        let next: u32 = readings[i];
        proof {
            assert(readings@.subrange(0, i + 1 as int).drop_last() =~= readings@.subrange(
                0,
                i as int,
            ));
            assert(readings@.subrange(0, i + 1 as int).last() == readings@[i as int]);
        }
        total = total + (next as u128);
        i = i + 1;
    }
    proof {
        assert(readings@.subrange(0, n as int) =~= readings@);
        lemma_sum_bounded(readings@, u32::MAX as int);
        assert(100 * total <= (n as int) * (100 * (u32::MAX as int))) by (nonlinear_arith)
            requires
                total == sum_of(readings@),
                total <= (u32::MAX as int) * (n as int),
                0 < n,
        ;
        lemma_div_is_ordered(100 * (total as int), (n as int) * (100 * (u32::MAX as int)), n as int);
        lemma_div_multiples_vanish(100 * (u32::MAX as int), n as int);
        lemma_div_pos_is_pos(100 * (total as int), n as int);
    }
    let mean: u128 = (100 * total) / (n as u128);
    Ok(mean as u64)
}

/// Memory load as hundredths of a percent of `total_memory`. Zero total
/// memory is the fatal configuration error, never a division by zero. A
/// provider-violating ratio beyond what fits the result saturates; a ratio
/// over one hundred percent otherwise passes through, to be clamped only at
/// the display step.
pub fn memory_percent_hundredths(used_memory: u64, total_memory: u64) -> (r: Result<
    u64,
    MonitorError,
>)
    ensures
        r is Ok <==> total_memory > 0,
        r is Err ==> r == Err::<u64, MonitorError>(MonitorError::NoTotalMemory),
        r matches Ok(m) ==> m == if memory_ratio(used_memory as int, total_memory as int) > (
        u64::MAX as int) {
            u64::MAX as int
        } else {
            memory_ratio(used_memory as int, total_memory as int)
        },
{
    if total_memory == 0 {
        return Err(MonitorError::NoTotalMemory);
    }
    let q: u128 = (10000 * (used_memory as u128)) / (total_memory as u128);
    if q > (u64::MAX as u128) {
        Ok(u64::MAX)
    } else {
        Ok(q as u64)
    }
}

/// The percent to show on a gauge for a reading in hundredths of a percent:
/// rounded to the nearest whole percent and clamped into the displayable
/// range even for an out-of-range reading.
pub fn gauge_percent(hundredths: u64) -> (p: u16)
    ensures
        p == display_percent(hundredths as int),
        p <= 100,
{
    if hundredths >= 10000 {
        100
    } else {
        ((hundredths + 50) / 100) as u16
    }
}

} // verus!
