use vstd::prelude::*;

use crate::process::{
    report_of, ExitKind, LifecycleError, Outcome, ProcessHandle, ProcessState, StopReport,
    TerminateOutcome, Verb,
};
use crate::supervisor::{
    allowed_edge, step_moves_allowed, step_next, Action, Event, PendingOp, ProcessSlot,
};

verus! {

/// Whether the slot takes each event of `evs` in turn.
pub open spec fn run_accepted(s: ProcessSlot, evs: Seq<Event>) -> bool
    decreases evs.len(),
{
    if evs.len() == 0 {
        true
    } else {
        s.accepts_spec(evs[0]) && run_accepted(step_next(s, evs[0]).0, evs.drop_first())
    }
}

/// The slot after each event of `evs` in turn.
pub open spec fn run(s: ProcessSlot, evs: Seq<Event>) -> ProcessSlot
    decreases evs.len(),
{
    if evs.len() == 0 {
        s
    } else {
        run(step_next(s, evs[0]).0, evs.drop_first())
    }
}

/// Whether every step of the run keeps the state or moves it along an
/// allowed edge.
pub open spec fn run_moves_allowed(s: ProcessSlot, evs: Seq<Event>) -> bool
    decreases evs.len(),
{
    if evs.len() == 0 {
        true
    } else {
        let next = step_next(s, evs[0]).0;
        step_moves_allowed(s.state, next.state) && run_moves_allowed(next, evs.drop_first())
    }
}

/// Every transition keeps the slot well formed and moves its state along an
/// allowed edge, if at all.
pub proof fn lemma_step_preserves_wf(s: ProcessSlot, ev: Event)
    requires
        s.wf(),
        s.accepts_spec(ev),
    ensures
        step_next(s, ev).0.wf(),
        step_moves_allowed(s.state, step_next(s, ev).0.state),
{
}

/// After any sequence of lifecycle events that the slot takes, it is well
/// formed: its state is one of the four, and it holds a handle exactly while
/// its process is running or being stopped. Along the way every change of
/// state is one of the lifecycle's edges.
pub proof fn lemma_run_preserves_wf(s: ProcessSlot, evs: Seq<Event>)
    requires
        s.wf(),
        run_accepted(s, evs),
    ensures
        run(s, evs).wf(),
        run_moves_allowed(s, evs),
    decreases evs.len(),
{
    if evs.len() > 0 {
        lemma_step_preserves_wf(s, evs[0]);
        lemma_run_preserves_wf(step_next(s, evs[0]).0, evs.drop_first());
    }
}

/// Two starts in a row on a stopped slot launch one process: the first asks
/// for a spawn and, once it succeeds, the second fails with `AlreadyActive`,
/// asks for nothing and leaves the slot as it was.
pub proof fn lemma_second_start_already_active(s: ProcessSlot, pid: u32)
    requires
        s.wf(),
        s.state == ProcessState::Stopped,
        s.next_serial < u64::MAX,
    ensures
        ({
            let (s1, a1) = step_next(s, Event::Command(Verb::Start));
            let (s2, a2) = step_next(s1, Event::Spawned(Ok(pid)));
            let (s3, a3) = step_next(s2, Event::Command(Verb::Start));
            &&& a1 == Action::Spawn
            &&& s2.state == ProcessState::Running
            &&& s2.handle == Some(ProcessHandle { pid, serial: s.next_serial })
            &&& a2 == Action::Finish(Ok(Outcome::Started(s2.handle.unwrap())))
            &&& a3 == Action::Finish(Err(LifecycleError::AlreadyActive))
            &&& s3 == s2
        }),
{
}

/// Stopping a stopped slot fails with `NotActive` and changes nothing.
pub proof fn lemma_stop_when_stopped(s: ProcessSlot)
    requires
        s.wf(),
        s.state == ProcessState::Stopped,
    ensures
        step_next(s, Event::Command(Verb::Stop)) == (s, Action::Finish(
            Err(LifecycleError::NotActive),
        )),
{
}

/// A restart of a running process terminates the old handle and rests in
/// `Stopped` with no handle, then launches again and ends running with a new
/// handle, whether the old process exited gracefully, only on the forceful
/// kill, or could not be confirmed gone; the restart reports how its stop
/// half ended.
pub proof fn lemma_restart_running(s: ProcessSlot, o: TerminateOutcome, pid: u32)
    requires
        s.wf(),
        s.state == ProcessState::Running,
        s.next_serial < u64::MAX,
    ensures
        ({
            let old_handle = s.handle.unwrap();
            let (s1, a1) = step_next(s, Event::Command(Verb::Restart));
            let (s2, a2) = step_next(s1, Event::Terminated(o));
            let (s3, a3) = step_next(s2, Event::Resume);
            let (s4, a4) = step_next(s3, Event::Spawned(Ok(pid)));
            &&& s1.state == ProcessState::Stopping
            &&& a1 == Action::Terminate(old_handle)
            &&& s2.state == ProcessState::Stopped
            &&& s2.handle is None
            &&& s2.op == PendingOp::RestartStopped(report_of(o))
            &&& a2 == Action::Continue
            &&& s3.state == ProcessState::Starting
            &&& a3 == Action::Spawn
            &&& s4.state == ProcessState::Running
            &&& s4.handle matches Some(h) && h != old_handle && a4 == Action::Finish(
                Ok(Outcome::Restarted(report_of(o), h)),
            )
            &&& allowed_edge(s.state, s1.state) && allowed_edge(s1.state, s2.state)
                && allowed_edge(s2.state, s3.state) && allowed_edge(s3.state, s4.state)
        }),
{
}

/// A restart whose old process dies only on the forceful kill ends running,
/// and reports its stop half as a forced exit.
pub proof fn lemma_restart_after_forced_kill(s: ProcessSlot, pid: u32)
    requires
        s.wf(),
        s.state == ProcessState::Running,
        s.next_serial < u64::MAX,
    ensures
        ({
            let (s1, _) = step_next(s, Event::Command(Verb::Restart));
            let (s2, _) = step_next(
                s1,
                Event::Terminated(TerminateOutcome::Exited(ExitKind::Forced)),
            );
            let (s3, _) = step_next(s2, Event::Resume);
            let (s4, a4) = step_next(s3, Event::Spawned(Ok(pid)));
            &&& s2.state == ProcessState::Stopped
            &&& s4.state == ProcessState::Running
            &&& s4.handle != s.handle
            &&& a4 == Action::Finish(
                Ok(Outcome::Restarted(StopReport::Exited(ExitKind::Forced), s4.handle.unwrap())),
            )
        }),
{
    lemma_restart_running(s, TerminateOutcome::Exited(ExitKind::Forced), pid);
}

/// A stop and a start on one process, run one after the other, each see the
/// state the other left, and together launch at most one process. Stop
/// first on a stopped process: the stop fails with `NotActive` and the start
/// alone launches one process. Start first on a stopped one: the start
/// launches one process and the stop then terminates it. Start first on a
/// running one: the start fails with `AlreadyActive` and launches nothing,
/// and the stop then terminates the process. Stop first on a running one:
/// the stop terminates it and the start launches one new process.
pub proof fn lemma_stop_start_serialized(s: ProcessSlot, pid: u32, o: TerminateOutcome)
    requires
        s.wf(),
        s.idle(),
        s.next_serial < u64::MAX,
    ensures
        s.state == ProcessState::Stopped ==> ({
            let (s1, a1) = step_next(s, Event::Command(Verb::Stop));
            let (s2, a2) = step_next(s1, Event::Command(Verb::Start));
            let (s3, a3) = step_next(s2, Event::Spawned(Ok(pid)));
            &&& a1 == Action::Finish(Err(LifecycleError::NotActive))
            &&& s1 == s
            &&& a2 == Action::Spawn
            &&& a3 is Finish && s3.state == ProcessState::Running
        }),
        s.state == ProcessState::Running ==> ({
            let (s1, a1) = step_next(s, Event::Command(Verb::Start));
            let (s2, a2) = step_next(s1, Event::Command(Verb::Stop));
            let (s3, a3) = step_next(s2, Event::Terminated(o));
            &&& a1 == Action::Finish(Err(LifecycleError::AlreadyActive))
            &&& s1 == s
            &&& a2 == Action::Terminate(s.handle.unwrap())
            &&& a3 is Finish && s3.state == ProcessState::Stopped
        }),
        s.state == ProcessState::Stopped ==> ({
            let (s1, a1) = step_next(s, Event::Command(Verb::Start));
            let (s2, a2) = step_next(s1, Event::Spawned(Ok(pid)));
            let (s3, a3) = step_next(s2, Event::Command(Verb::Stop));
            let (s4, a4) = step_next(s3, Event::Terminated(o));
            &&& a1 == Action::Spawn
            &&& a2 == Action::Finish(Ok(Outcome::Started(s2.handle.unwrap())))
            &&& a3 == Action::Terminate(s2.handle.unwrap())
            &&& a4 is Finish && s4.state == ProcessState::Stopped && s4.handle is None
        }),
        s.state == ProcessState::Running ==> ({
            let (s1, a1) = step_next(s, Event::Command(Verb::Stop));
            let (s2, a2) = step_next(s1, Event::Terminated(o));
            let (s3, a3) = step_next(s2, Event::Command(Verb::Start));
            let (s4, a4) = step_next(s3, Event::Spawned(Ok(pid)));
            &&& a1 == Action::Terminate(s.handle.unwrap())
            &&& a2 is Finish && s2.state == ProcessState::Stopped
            &&& a3 == Action::Spawn
            &&& a4 == Action::Finish(Ok(Outcome::Started(s4.handle.unwrap())))
            &&& s4.state == ProcessState::Running
        }),
{
}

} // verus!
