use vstd::prelude::*;

verus! {

/// Scheduling state of a process, as the operating system reports it.
#[derive(Clone, Copy, Debug, PartialEq, Eq, Structural)]
pub enum OsProcessStatus {
    Idle,
    Run,
    Sleep,
    Stop,
    Zombie,
    Tracing,
    Dead,
    Wakekill,
    Waking,
    Parked,
    LockBlocked,
    UninterruptibleDiskSleep,
    Unknown(u32),
}

/// The status shown for a process in a snapshot.
#[derive(Clone, Copy, Debug, PartialEq, Eq, Structural)]
pub enum DisplayStatus {
    Running,
    Sleeping,
    Idle,
    Unknown,
}

/// Running, sleeping and idle processes keep their state; every other state
/// is shown as unknown.
pub open spec fn spec_display_status(s: OsProcessStatus) -> DisplayStatus {
    match s {
        OsProcessStatus::Run => DisplayStatus::Running,
        OsProcessStatus::Sleep => DisplayStatus::Sleeping,
        OsProcessStatus::Idle => DisplayStatus::Idle,
        _ => DisplayStatus::Unknown,
    }
}

pub fn display_status(s: OsProcessStatus) -> (r: DisplayStatus)
    ensures
        r == spec_display_status(s),
{
    match s {
        OsProcessStatus::Run => DisplayStatus::Running,
        OsProcessStatus::Sleep => DisplayStatus::Sleeping,
        OsProcessStatus::Idle => DisplayStatus::Idle,
        _ => DisplayStatus::Unknown,
    }
}

impl DisplayStatus {
    pub open spec fn spec_label(self) -> Seq<char> {
        match self {
            DisplayStatus::Running => "Running"@,
            DisplayStatus::Sleeping => "Sleeping"@,
            DisplayStatus::Idle => "Idle"@,
            DisplayStatus::Unknown => "Unknown"@,
        }
    }

    /// The text shown for this status.
    pub fn label(&self) -> (r: String)
        ensures
            r@ == self.spec_label(),
    {
        match self {
            DisplayStatus::Running => String::from_str("Running"),
            DisplayStatus::Sleeping => String::from_str("Sleeping"),
            DisplayStatus::Idle => String::from_str("Idle"),
            DisplayStatus::Unknown => String::from_str("Unknown"),
        }
    }
}

} // verus!
