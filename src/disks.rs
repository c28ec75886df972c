use vstd::prelude::*;
use crate::memory::sat_sub;

verus! {

/// One mounted disk: where it is mounted, its size and its free space, in bytes.
pub struct DiskReading {
    pub mount_point: String,
    pub total_space: u64,
    pub available_space: u64,
}

/// Disk figures of one snapshot, in bytes.
#[derive(Clone, Copy, Debug, PartialEq, Eq, Structural)]
pub struct DiskTotals {
    pub total: u64,
    pub used: u64,
    pub free: u64,
}

/// Only the file system mounted at the root path counts towards the totals.
pub open spec fn is_root_mount(mount: Seq<char>) -> bool {
    mount == seq!['/']
}

pub open spec fn counts_toward_totals(d: DiskReading) -> bool {
    is_root_mount(d.mount_point@)
}

pub open spec fn sat_add(a: u64, b: u64) -> u64 {
    if a + b > u64::MAX {
        u64::MAX
    } else {
        (a + b) as u64
    }
}

/// Totals over the disks mounted at the root path: size, used space (size
/// less free space) and free space, each sum saturating at `u64::MAX`.
pub open spec fn root_totals(ds: Seq<DiskReading>) -> DiskTotals
    decreases ds.len(),
{
    if ds.len() == 0 {
        DiskTotals { total: 0, used: 0, free: 0 }
    } else {
        let prev = root_totals(ds.drop_last());
        let d = ds.last();
        if counts_toward_totals(d) {
            DiskTotals {
                total: sat_add(prev.total, d.total_space),
                used: sat_add(prev.used, sat_sub(d.total_space, d.available_space)),
                free: sat_add(prev.free, d.available_space),
            }
        } else {
            prev
        }
    }
}

/// Whether a mount point is the root path.
pub fn is_root_path(mount: &str) -> (r: bool)
    ensures
        r == is_root_mount(mount@),
{
    if mount.unicode_len() != 1 {
        assert(mount@ != seq!['/']);
        false
    } else {
        let c = mount.get_char(0);
        if c == '/' {
            assert(mount@ =~= seq!['/']);
            true
        } else {
            false
        }
    }
}

/// Disk totals over the disks mounted at the root path; all other mounts
/// (removable media, network shares, overlays) are left out.
pub fn aggregate_disks(disks: &Vec<DiskReading>) -> (r: DiskTotals)
    ensures
        r == root_totals(disks@),
{
    let mut acc = DiskTotals { total: 0, used: 0, free: 0 };
    let mut i: usize = 0;
    while i < disks.len()
        invariant
            i <= disks@.len(),
            acc == root_totals(disks@.subrange(0, i as int)),
        decreases disks.len() - i,
    {
        let d = &disks[i];
        assert(disks@.subrange(0, i as int + 1).drop_last() =~= disks@.subrange(0, i as int));
        if is_root_path(d.mount_point.as_str()) {
            acc = DiskTotals {
                total: acc.total.saturating_add(d.total_space),
                used: acc.used.saturating_add(d.total_space.saturating_sub(d.available_space)),
                free: acc.free.saturating_add(d.available_space),
            };
        }
        i = i + 1;
    }
    assert(disks@.subrange(0, i as int) =~= disks@);
    acc
}

/// Disks not mounted at the root path contribute nothing: the totals over
/// any list of disks are the totals over its root-mounted entries alone.
pub proof fn lemma_only_root_counts(ds: Seq<DiskReading>)
    ensures
        root_totals(ds) == root_totals(ds.filter(|d: DiskReading| counts_toward_totals(d))),
    decreases ds.len(),
{
    let pred = |d: DiskReading| counts_toward_totals(d);
    if ds.len() == 0 {
        reveal(Seq::filter);
    } else {
        let init = ds.drop_last();
        let last = ds.last();
        lemma_only_root_counts(init);
        assert(init.push(last) =~= ds);
        init.lemma_filter_push(last, pred);
        let f = init.filter(pred);
        if pred(last) {
            assert(f.push(last).drop_last() =~= f);
        }
    }
}

} // verus!
