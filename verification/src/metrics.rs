//! The data carried from one sampling pass into normalization.
//!
//! The metric source re-enumerates all mounted volumes on every cycle and the
//! snapshot sums their sizes; CPU busy time arrives as one value per core, in
//! hundredths of a percent, so that averaging and rounding stay exact integer
//! arithmetic.

use vstd::prelude::*;

verus! {

/// An upper bound on how many per-core CPU samples a snapshot may carry.
/// Each sample occupies eight bytes, so no address space can hold more;
/// the bound keeps the summing arithmetic visibly free of overflow.
pub const MAX_CPU_CORES: u64 = 0x2000_0000_0000_0000;

/// The total and still-available size of one mounted volume, in bytes.
#[derive(Clone, Copy, Debug, PartialEq, Eq, Structural)]
pub struct DiskVolume {
    pub total_bytes: u64,
    pub available_bytes: u64,
}

impl DiskVolume {
    /// A volume never reports more available space than it has in total.
    pub open spec fn wf(self) -> bool {
        self.available_bytes <= self.total_bytes
    }
}

/// One cycle's raw counters, read fresh from the OS and consumed immediately.
///
/// `cpu_core_centi_percents` holds each core's busy percentage in hundredths
/// of a percent (`4950` stands for `49.50 %`); values may transiently exceed
/// `100 %` under measurement jitter and are not clamped here.
#[derive(Debug)]
pub struct MetricSnapshot {
    pub cpu_core_centi_percents: Vec<u64>,
    pub memory_total_bytes: u64,
    pub memory_used_bytes: u64,
    pub disk_total_bytes: u64,
    pub disk_available_bytes: u64,
}

impl MetricSnapshot {
    /// What the metric source guarantees of every snapshot it hands over:
    /// used memory and available disk space never exceed their totals, and
    /// the per-core list fits the summing bound.
    pub open spec fn wf(self) -> bool {
        &&& self.memory_used_bytes <= self.memory_total_bytes
        &&& self.disk_available_bytes <= self.disk_total_bytes
        &&& self.cpu_core_centi_percents@.len() <= MAX_CPU_CORES
    }
}

/// The sum of the volumes' total sizes, unbounded.
pub open spec fn sum_total_bytes(vols: Seq<DiskVolume>) -> int
    decreases vols.len(),
{
    if vols.len() == 0 {
        0
    } else {
        sum_total_bytes(vols.drop_last()) + vols.last().total_bytes
    }
}

/// The sum of the volumes' available sizes, unbounded.
pub open spec fn sum_available_bytes(vols: Seq<DiskVolume>) -> int
    decreases vols.len(),
{
    if vols.len() == 0 {
        0
    } else {
        sum_available_bytes(vols.drop_last()) + vols.last().available_bytes
    }
}

/// `x` capped at the largest value a `u64` can hold.
pub open spec fn saturate_u64(x: int) -> int {
    if x > u64::MAX {
        u64::MAX as int
    } else {
        x
    }
}

/// On volumes that each satisfy `wf`, the available sum cannot exceed the
/// total sum.
proof fn lemma_sums_ordered(vols: Seq<DiskVolume>)
    requires
        forall|i: int| 0 <= i < vols.len() ==> (#[trigger] vols[i]).wf(),
    ensures
        sum_available_bytes(vols) <= sum_total_bytes(vols),
    decreases vols.len(),
{
    if vols.len() > 0 {
        lemma_sums_ordered(vols.drop_last());
        assert(vols.last().wf());
    }
}

/// Sums total and available space over every volume the source enumerated,
/// as one aggregate pair `(total, available)`.
///
/// Each sum saturates at `u64::MAX` instead of wrapping; on realistic volume
/// lists the cap is never reached. Well-formed volumes yield a well-formed
/// pair: available never exceeds total.
pub fn aggregate_disk_space(volumes: &Vec<DiskVolume>) -> (r: (u64, u64))
    ensures
        r.0 == saturate_u64(sum_total_bytes(volumes@)),
        r.1 == saturate_u64(sum_available_bytes(volumes@)),
        (forall|i: int| 0 <= i < volumes@.len() ==> (#[trigger] volumes@[i]).wf()) ==> r.1
            <= r.0,
{
    let mut total_space: u64 = 0;
    let mut available_space: u64 = 0;
    let mut i: usize = 0;
    while i < volumes.len()
        invariant
            i <= volumes@.len(),
            total_space == saturate_u64(sum_total_bytes(volumes@.take(i as int))),
            available_space == saturate_u64(sum_available_bytes(volumes@.take(i as int))),
        decreases volumes@.len() - i,
    {
        let v = volumes[i];
        proof {
            assert(volumes@.take(i + 1).drop_last() =~= volumes@.take(i as int));
            assert(volumes@.take(i + 1).last() == volumes@[i as int]);
        }
        if u64::MAX - total_space < v.total_bytes {
            total_space = u64::MAX;
        } else {
            total_space = total_space + v.total_bytes;
        }
        if u64::MAX - available_space < v.available_bytes {
            available_space = u64::MAX;
        } else {
            available_space = available_space + v.available_bytes;
        }
        i = i + 1;
    }
    proof {
        assert(volumes@.take(volumes@.len() as int) =~= volumes@);
        if forall|j: int| 0 <= j < volumes@.len() ==> (#[trigger] volumes@[j]).wf() {
            lemma_sums_ordered(volumes@);
        }
    }
    (total_space, available_space)
}

} // verus!
