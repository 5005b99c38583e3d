//! Normalization of raw counters into bounded integer percentages.
//!
//! A ratio `used / total` becomes `round(used * 100 / total)` with
//! round-half-away-from-zero (for the non-negative inputs handled here this is
//! round-half-up). A zero total is a defined, recoverable fault rather than a
//! division error.

use crate::metrics::MAX_CPU_CORES;
use crate::metrics::MetricSnapshot;
use vstd::arithmetic::div_mod::lemma_fundamental_div_mod;
use vstd::arithmetic::mul::lemma_mul_inequality;
use vstd::prelude::*;

verus! {

/// A fault raised while normalizing one cycle's counters. Every fault is
/// cycle-local: the caller logs it and goes on to the next cycle.
#[derive(Clone, Copy, Debug, PartialEq, Eq, Structural)]
pub enum NormalizeError {
    /// A `used / total` ratio was requested with `total == 0`.
    ZeroTotal,
    /// A CPU average was requested over an empty list of per-core samples.
    EmptyCpuSample,
}

/// `round(used * 100 / total)` with round-half-up, stated purely over `int`:
/// `floor((200 * used + total) / (2 * total))`.
pub open spec fn rounded_ratio_percent(used: int, total: int) -> int
    recommends
        total > 0,
        0 <= used,
{
    (200 * used + total) / (2 * total)
}

/// The percentage of `total` that `used` occupies, rounded half-up.
///
/// Succeeds exactly when `total > 0`; the result then lies in `[0, 100]`
/// because `used <= total`.
pub fn percent_of(used: u64, total: u64) -> (r: Result<u32, NormalizeError>)
    requires
        used <= total,
    ensures
        r is Ok <==> total > 0,
        r matches Ok(p) ==> p == rounded_ratio_percent(used as int, total as int),
        r matches Ok(p) ==> 0 <= p <= 100,
        r matches Err(e) ==> e == NormalizeError::ZeroTotal,
{
    if total == 0 {
        return Err(NormalizeError::ZeroTotal);
    }
    let num: u128 = 200u128 * (used as u128) + (total as u128);
    let den: u128 = 2u128 * (total as u128);
    let q: u128 = num / den;
    proof {
        assert(q <= 100) by (nonlinear_arith)
            requires
                q == num as int / den as int,
                num == 200 * (used as int) + (total as int),
                den == 2 * (total as int),
                used <= total,
                total > 0,
        ;
    }
    Ok(q as u32)
}

/// The normalized ratio is the integer nearest to `used * 100 / total`,
/// with halves rounded up (away from zero, since nothing here is negative).
/// Stated without fractions: `p` satisfies
/// `100*used/total - 1/2 < p <= 100*used/total + 1/2`, both sides multiplied
/// by `2 * total`; and for `used <= total` it lies in `[0, 100]`.
pub proof fn lemma_rounded_ratio_is_nearest(used: int, total: int)
    requires
        total > 0,
        0 <= used,
    ensures
        200 * used - total < 2 * total * rounded_ratio_percent(used, total),
        2 * total * rounded_ratio_percent(used, total) <= 200 * used + total,
        used <= total ==> 0 <= rounded_ratio_percent(used, total) <= 100,
{
    let n = 200 * used + total;
    let d = 2 * total;
    let p = rounded_ratio_percent(used, total);
    lemma_fundamental_div_mod(n, d);
    assert(d * p == n - n % d);
    assert(2 * total * p == d * p) by (nonlinear_arith)
        requires
            d == 2 * total,
    ;
    if used <= total {
        assert(0 <= p <= 100) by (nonlinear_arith)
            requires
                total > 0,
                0 <= used <= total,
                200 * used - total < 2 * total * p,
                2 * total * p <= 200 * used + total,
        ;
    }
}

/// The sum of a list of per-core samples, in hundredths of a percent.
pub open spec fn sum_centi(s: Seq<u64>) -> int
    decreases s.len(),
{
    if s.len() == 0 {
        0
    } else {
        sum_centi(s.drop_last()) + s.last()
    }
}

/// The arithmetic mean of `n` samples summing to `sum` hundredths of a
/// percent, expressed as a whole percentage rounded half-up:
/// `floor((sum + 50 * n) / (100 * n))`.
pub open spec fn rounded_average_percent(sum: int, n: int) -> int
    recommends
        n > 0,
        0 <= sum,
{
    (sum + 50 * n) / (100 * n)
}

/// The rounded mean obeys the same half-up rule as the ratio: for `n`
/// samples summing to `sum`, the result `p` satisfies
/// `sum/(100*n) - 1/2 < p <= sum/(100*n) + 1/2`, both sides multiplied by
/// `200 * n` — one consistent rounding rule for every metric.
pub proof fn lemma_rounded_average_is_nearest(sum: int, n: int)
    requires
        n > 0,
        0 <= sum,
    ensures
        2 * sum - 100 * n < 200 * n * rounded_average_percent(sum, n),
        200 * n * rounded_average_percent(sum, n) <= 2 * sum + 100 * n,
{
    let num = sum + 50 * n;
    let den = 100 * n;
    let p = rounded_average_percent(sum, n);
    lemma_fundamental_div_mod(num, den);
    assert(den * p == num - num % den);
    assert(200 * n * p == 2 * (den * p)) by (nonlinear_arith)
        requires
            den == 100 * n,
    ;
}

/// `x` capped at the largest value a `u32` can hold.
pub open spec fn clamp_u32(x: int) -> int {
    if x > u32::MAX {
        u32::MAX as int
    } else {
        x
    }
}

/// The mean of the per-core busy percentages, rounded half-up to a whole
/// percent.
///
/// Each entry of `cores` is one core's busy percentage in hundredths of a
/// percent. Succeeds exactly when at least one sample is present; a mean
/// beyond `u32` range (possible only on absurd inputs, since cores report
/// at most about `100 %`) is capped rather than wrapped.
pub fn cpu_percent(cores: &Vec<u64>) -> (r: Result<u32, NormalizeError>)
    requires
        cores@.len() <= MAX_CPU_CORES,
    ensures
        r is Ok <==> cores@.len() > 0,
        r matches Ok(p) ==> p == clamp_u32(
            rounded_average_percent(sum_centi(cores@), cores@.len() as int),
        ),
        r matches Err(e) ==> e == NormalizeError::EmptyCpuSample,
{
    if cores.len() == 0 {
        return Err(NormalizeError::EmptyCpuSample);
    }
    let mut sum: u128 = 0;
    let mut i: usize = 0;
    while i < cores.len()
        invariant
            i <= cores@.len(),
            cores@.len() <= MAX_CPU_CORES,
            sum == sum_centi(cores@.take(i as int)),
            sum <= (i as int) * (u64::MAX as int),
        decreases cores@.len() - i,
    {
        proof {
            assert(cores@.take(i + 1).drop_last() =~= cores@.take(i as int));
            assert(cores@.take(i + 1).last() == cores@[i as int]);
            lemma_mul_inequality(i as int, MAX_CPU_CORES as int, u64::MAX as int);
        }
        sum = sum + (cores[i] as u128);
        i = i + 1;
    }
    proof {
        assert(cores@.take(cores@.len() as int) =~= cores@);
        lemma_mul_inequality(cores@.len() as int, MAX_CPU_CORES as int, u64::MAX as int);
    }
    let n: u128 = cores.len() as u128;
    let num: u128 = sum + 50u128 * n;
    let den: u128 = 100u128 * n;
    let q: u128 = num / den;
    if q > u32::MAX as u128 {
        Ok(u32::MAX)
    } else {
        Ok(q as u32)
    }
}

/// The three normalized percentages of one cycle, derived deterministically
/// from a snapshot and discarded after formatting.
#[derive(Clone, Copy, Debug, PartialEq, Eq, Structural)]
pub struct UtilizationReport {
    pub cpu_percent: u32,
    pub memory_percent: u32,
    pub disk_percent: u32,
}

/// Turns one snapshot's raw counters into the cycle's three percentages:
/// the CPU mean rounded to a whole percent, used memory over total memory,
/// and used disk space (total minus available) over total disk space.
///
/// Succeeds exactly when the snapshot admits all three divisions: at least
/// one CPU sample, a non-zero memory total and a non-zero disk total. An
/// empty CPU sample is reported as such; a zero total as `ZeroTotal`.
pub fn normalize_snapshot(s: &MetricSnapshot) -> (r: Result<
    UtilizationReport,
    NormalizeError,
>)
    requires
        s.wf(),
    ensures
        r is Ok <==> (s.cpu_core_centi_percents@.len() > 0 && s.memory_total_bytes > 0
            && s.disk_total_bytes > 0),
        r matches Ok(rep) ==> {
            &&& rep.cpu_percent == clamp_u32(
                rounded_average_percent(
                    sum_centi(s.cpu_core_centi_percents@),
                    s.cpu_core_centi_percents@.len() as int,
                ),
            )
            &&& rep.memory_percent == rounded_ratio_percent(
                s.memory_used_bytes as int,
                s.memory_total_bytes as int,
            )
            &&& rep.disk_percent == rounded_ratio_percent(
                s.disk_total_bytes - s.disk_available_bytes,
                s.disk_total_bytes as int,
            )
            &&& rep.memory_percent <= 100
            &&& rep.disk_percent <= 100
        },
        r matches Err(e) ==> e == (if s.cpu_core_centi_percents@.len() == 0 {
            NormalizeError::EmptyCpuSample
        } else {
            NormalizeError::ZeroTotal
        }),
{
    let cpu = match cpu_percent(&s.cpu_core_centi_percents) {
        Ok(c) => c,
        Err(e) => return Err(e),
    };
    let disk_used = s.disk_total_bytes - s.disk_available_bytes;
    let disk = match percent_of(disk_used, s.disk_total_bytes) {
        Ok(d) => d,
        Err(e) => return Err(e),
    };
    let mem = match percent_of(s.memory_used_bytes, s.memory_total_bytes) {
        Ok(m) => m,
        Err(e) => return Err(e),
    };
    Ok(UtilizationReport { cpu_percent: cpu, memory_percent: mem, disk_percent: disk })
}

} // verus!
