use vstd::prelude::*;

verus! {

/// The identity of a managed background process; the key of every lookup.
#[derive(Clone, Copy, Debug, PartialEq, Eq, Structural)]
pub enum ManagedProcessId {
    WhisperServer,
    AutotypeClient,
}

/// The observed lifecycle state of one managed process.
#[derive(Clone, Copy, Debug, PartialEq, Eq, Structural)]
pub enum ProcessState {
    Stopped,
    Starting,
    Running,
    Stopping,
}

/// A reference to a live process: the operating system's process id, and a
/// serial number that the supervisor stamps on each launch, so that two
/// launches never share a handle even when the system reuses a pid.
#[derive(Clone, Copy, Debug, PartialEq, Eq, Structural)]
pub struct ProcessHandle {
    pub pid: u32,
    pub serial: u64,
}

/// A lifecycle operation requested for one managed process.
#[derive(Clone, Copy, Debug, PartialEq, Eq, Structural)]
pub enum Verb {
    Start,
    Stop,
    Restart,
}

/// How a terminated process went away.
#[derive(Clone, Copy, Debug, PartialEq, Eq, Structural)]
pub enum ExitKind {
    /// It exited within the grace period after the graceful-stop signal.
    Graceful,
    /// It exited only after the forceful kill.
    Forced,
}

/// What the handle registry reports after asking a process to terminate.
#[derive(Clone, Copy, Debug, PartialEq, Eq, Structural)]
pub enum TerminateOutcome {
    Exited(ExitKind),
    /// Not even the forceful kill could be confirmed within its bound.
    TimedOut,
}

/// The stop half of a restart, as the restart reports it.
#[derive(Clone, Copy, Debug, PartialEq, Eq, Structural)]
pub enum StopReport {
    /// The process was not running; the stop counted as already done.
    WasNotActive,
    Exited(ExitKind),
    TimedOut,
}

/// The result of a lifecycle operation that succeeded.
#[derive(Clone, Copy, Debug, PartialEq, Eq, Structural)]
pub enum Outcome {
    Started(ProcessHandle),
    Stopped(ExitKind),
    Restarted(StopReport, ProcessHandle),
}

/// Why a lifecycle operation failed.
#[derive(Clone, Debug, PartialEq, Eq)]
pub enum LifecycleError {
    AlreadyActive,
    NotActive,
    SpawnFailed(String),
    StopTimedOut,
}

/// The stop report that a restart carries for a termination outcome.
pub open spec fn report_of(o: TerminateOutcome) -> StopReport {
    match o {
        TerminateOutcome::Exited(k) => StopReport::Exited(k),
        TerminateOutcome::TimedOut => StopReport::TimedOut,
    }
}

} // verus!
