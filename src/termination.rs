use vstd::prelude::*;

use crate::process::{ExitKind, TerminateOutcome};

verus! {

/// Which wait of a termination has just ended.
#[derive(Clone, Copy, Debug, PartialEq, Eq, Structural)]
pub enum TerminationPhase {
    /// The wait of the grace period after the graceful-stop signal.
    AfterGraceful,
    /// The short wait after the forceful kill.
    AfterForced,
}

/// What a termination does after a wait.
#[derive(Clone, Copy, Debug, PartialEq, Eq, Structural)]
pub enum TerminationStep {
    /// Send the forceful kill, then wait with `TerminationPhase::AfterForced`.
    ForceKill,
    /// The termination is over with this outcome.
    Done(TerminateOutcome),
}

/// A process that exits during a wait counts as exited in that wait's way;
/// one still alive after the grace period is killed, and one still alive
/// after the kill is reported as timed out.
pub open spec fn after_wait_spec(phase: TerminationPhase, exited: bool) -> TerminationStep {
    match phase {
        TerminationPhase::AfterGraceful => if exited {
            TerminationStep::Done(TerminateOutcome::Exited(ExitKind::Graceful))
        } else {
            TerminationStep::ForceKill
        },
        TerminationPhase::AfterForced => if exited {
            TerminationStep::Done(TerminateOutcome::Exited(ExitKind::Forced))
        } else {
            TerminationStep::Done(TerminateOutcome::TimedOut)
        },
    }
}

/// Decides the next step of a termination from whether the process exited
/// during the wait that just ended.
pub fn after_wait(phase: TerminationPhase, exited: bool) -> (r: TerminationStep)
    ensures
        r == after_wait_spec(phase, exited),
{
    match phase {
        TerminationPhase::AfterGraceful => {
            if exited {
                TerminationStep::Done(TerminateOutcome::Exited(ExitKind::Graceful))
            } else {
                TerminationStep::ForceKill
            }
        },
        TerminationPhase::AfterForced => {
            if exited {
                TerminationStep::Done(TerminateOutcome::Exited(ExitKind::Forced))
            } else {
                TerminationStep::Done(TerminateOutcome::TimedOut)
            }
        },
    }
}

} // verus!
