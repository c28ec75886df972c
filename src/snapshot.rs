use vstd::prelude::*;
use std::collections::HashMap;
use crate::static_cache::{
    cache_step, observed_info, opt_string_view, strings_view, StaticInfoCache, StaticInfoView,
};
use crate::status::{display_status, spec_display_status, DisplayStatus, OsProcessStatus};

verus! {

broadcast use vstd::std_specs::hash::group_hash_axioms;

/// One live process as read from the operating system.
pub struct ProcessReading {
    pub pid: u32,
    pub parent: Option<u32>,
    pub name: String,
    pub argv: Vec<String>,
    pub user_id: Option<String>,
    pub memory: u64,
    pub status: OsProcessStatus,
}

/// One process of a snapshot, its static attributes taken from the cache.
pub struct ProcessRecord {
    pub pid: u32,
    /// 0 for a process without a parent.
    pub ppid: u32,
    pub name: String,
    pub memory_usage: u64,
    pub network_rx: u64,
    pub network_tx: u64,
    pub status: DisplayStatus,
    pub user: String,
    pub command: String,
}

pub open spec fn reading_info(rd: ProcessReading) -> StaticInfoView {
    observed_info(rd.name@, strings_view(rd.argv@), opt_string_view(rd.user_id))
}

/// The cache after looking up each reading in turn.
pub open spec fn cache_after(m: Map<u32, StaticInfoView>, rs: Seq<ProcessReading>) -> Map<
    u32,
    StaticInfoView,
>
    decreases rs.len(),
{
    if rs.len() == 0 {
        m
    } else {
        cache_step(cache_after(m, rs.drop_last()), rs.last().pid, reading_info(rs.last())).0
    }
}

/// The static attributes that the `i`-th reading resolves to.
pub open spec fn info_at(m: Map<u32, StaticInfoView>, rs: Seq<ProcessReading>, i: int) -> StaticInfoView {
    cache_step(cache_after(m, rs.take(i)), rs[i].pid, reading_info(rs[i])).1
}

/// Bytes received and sent by a process; (0, 0) where the usage report has
/// no entry for it.
pub open spec fn usage_for(usage: Map<u32, (u64, u64)>, pid: u32) -> (u64, u64) {
    if usage.contains_key(pid) {
        usage[pid]
    } else {
        (0, 0)
    }
}

pub open spec fn record_of(
    rec: ProcessRecord,
    rd: ProcessReading,
    info: StaticInfoView,
    usage: Map<u32, (u64, u64)>,
) -> bool {
    &&& rec.pid == rd.pid
    &&& rec.ppid == match rd.parent {
        Some(p) => p,
        None => 0u32,
    }
    &&& rec.name@ == info.name
    &&& rec.command@ == info.command
    &&& rec.user@ == info.user
    &&& rec.memory_usage == rd.memory
    &&& (rec.network_rx, rec.network_tx) == usage_for(usage, rd.pid)
    &&& rec.status == spec_display_status(rd.status)
}

fn copy_opt_string(s: &Option<String>) -> (r: Option<String>)
    ensures
        opt_string_view(r) == opt_string_view(*s),
{
    match s {
        Some(u) => Some(u.clone()),
        None => None,
    }
}

/// Records for the live processes, in the order read: static attributes come
/// from the cache (filled on first sight of a pid), network bytes from the
/// per-process usage report.
pub fn build_records(
    cache: &mut StaticInfoCache,
    readings: &Vec<ProcessReading>,
    usage: &HashMap<u32, (u64, u64)>,
) -> (r: Vec<ProcessRecord>)
    ensures
        r@.len() == readings@.len(),
        forall|i: int|
            0 <= i < r@.len() ==> record_of(
                #[trigger] r@[i],
                readings@[i],
                info_at(old(cache)@, readings@, i),
                usage@,
            ),
        final(cache)@ == cache_after(old(cache)@, readings@),
{
    let ghost m0 = cache@;
    let mut out: Vec<ProcessRecord> = Vec::new();
    let mut i: usize = 0;
    while i < readings.len()
        invariant
            i <= readings@.len(),
            out@.len() == i,
            cache@ == cache_after(m0, readings@.take(i as int)),
            forall|j: int|
                0 <= j < i ==> record_of(
                    #[trigger] out@[j],
                    readings@[j],
                    info_at(m0, readings@, j),
                    usage@,
                ),
        decreases readings.len() - i,
    {
        let rd = &readings[i];
        assert(readings@.take(i as int + 1).drop_last() =~= readings@.take(i as int));
        let info = cache.get_or_create(rd.pid, &rd.name, &rd.argv, copy_opt_string(&rd.user_id));
        let (network_rx, network_tx) = match usage.get(&rd.pid) {
            Some(u) => *u,
            None => (0, 0),
        };
        let ppid = match rd.parent {
            Some(p) => p,
            None => 0,
        };
        let rec = ProcessRecord {
            pid: rd.pid,
            ppid,
            name: info.name,
            memory_usage: rd.memory,
            network_rx,
            network_tx,
            status: display_status(rd.status),
            user: info.user,
            command: info.command,
        };
        out.push(rec);
        i = i + 1;
    }
    assert(readings@.take(i as int) =~= readings@);
    out
}

} // verus!
