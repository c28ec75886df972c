use vstd::prelude::*;

verus! {

/// Memory figures of one snapshot, in bytes.
#[derive(Clone, Copy, Debug, PartialEq, Eq, Structural)]
pub struct MemoryTotals {
    pub total: u64,
    pub used: u64,
    pub free: u64,
    pub cached: u64,
}

/// `a - b`, or 0 where `b` exceeds `a`.
pub open spec fn sat_sub(a: u64, b: u64) -> u64 {
    if a >= b {
        (a - b) as u64
    } else {
        0
    }
}

/// Memory figures from the total and used byte counts. Free memory is what is
/// not used. The cached figure is computed as `total - (used + free)`, which
/// cancels to zero: the operating system's cached counter is not read.
pub fn memory_totals(total: u64, used: u64) -> (r: MemoryTotals)
    ensures
        r.total == total,
        r.used == used,
        r.free == sat_sub(total, used),
        r.cached == 0,
{
    let free = total.saturating_sub(used);
    let cached = total.saturating_sub(used + free);
    MemoryTotals { total, used, free, cached }
}

} // verus!
