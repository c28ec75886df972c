//! Snapshot engine of a desktop process monitor: the per-process static
//! attribute cache, network throughput tracking, memory and disk aggregation,
//! process status mapping and parsing of per-process network usage reports.

pub mod control;
pub mod disks;
pub mod memory;
pub mod nettop;
pub mod snapshot;
pub mod static_cache;
pub mod status;
pub mod throughput;
