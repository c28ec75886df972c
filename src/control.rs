use vstd::prelude::*;
use sysinfo::{ProcessExt, SystemExt};

verus! {

#[verifier::external_type_specification]
#[verifier::external_body]
pub struct ExSystem(sysinfo::System);

#[verifier::external_type_specification]
#[verifier::external_body]
pub struct ExProcess(sysinfo::Process);

/// The process ids under which a system handle's process table, as last
/// refreshed, finds a process.
pub uninterp spec fn process_table_pids(sys: sysinfo::System) -> Set<u32>;

/// Relies on sysinfo's `SystemExt::process` (a lookup in the handle's process
/// table): it finds a process exactly for the ids in the table.
#[verifier::external_body]
fn find_process(sys: &sysinfo::System, pid: u32) -> (r: Option<&sysinfo::Process>)
    ensures
        r is Some <==> process_table_pids(*sys).contains(pid),
{
    sys.process(sysinfo::Pid::from(pid as usize))
}

/// Relies on sysinfo's `ProcessExt::kill`: sends the kill signal and reports
/// whether the operating system accepted it.
#[verifier::external_body]
fn request_kill(p: &sysinfo::Process) -> (r: bool) {
    p.kill()
}

/// Requests termination of `pid`. A pid absent from the process table is a
/// normal outcome (the process may have exited) and gives `false`; otherwise
/// the result says whether the operating system accepted the request.
pub fn kill_process(sys: &sysinfo::System, pid: u32) -> (r: bool)
    ensures
        !process_table_pids(*sys).contains(pid) ==> !r,
{
    match find_process(sys, pid) {
        Some(p) => request_kill(p),
        None => false,
    }
}

} // verus!
