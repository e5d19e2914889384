use tonnytray::dispatch::{tray_command, TrayCommand};
use tonnytray::process::{
    ExitKind, LifecycleError, ManagedProcessId, Outcome, ProcessHandle, ProcessState, StopReport,
    TerminateOutcome, Verb,
};
use tonnytray::supervisor::{Action, Event, PendingOp, ProcessSlot};
use tonnytray::termination::{after_wait, TerminationPhase, TerminationStep};
use ManagedProcessId::{AutotypeClient, WhisperServer};

/// Drives one whole operation, answering spawns with the next pid of `pids`
/// (or the failure `spawn_error`) and terminations with `term`.
/// Returns the result and the number of spawns and terminations asked for.
fn drive(
    slot: &mut ProcessSlot,
    verb: Verb,
    pids: &mut Vec<u32>,
    spawn_error: Option<&str>,
    term: TerminateOutcome,
) -> (Result<Outcome, LifecycleError>, usize, usize) {
    let mut spawns = 0;
    let mut terms = 0;
    let mut ev = Event::Command(verb);
    loop {
        assert!(slot.accepts(&ev));
        match slot.step(ev) {
            Action::Spawn => {
                spawns += 1;
                ev = match spawn_error {
                    Some(e) => Event::Spawned(Err(e.to_string())),
                    None => Event::Spawned(Ok(pids.remove(0))),
                };
            }
            Action::Terminate(_) => {
                terms += 1;
                ev = Event::Terminated(term);
            }
            Action::Continue => {
                assert_eq!(slot.state(), ProcessState::Stopped);
                assert_eq!(slot.handle(), None);
                ev = Event::Resume;
            }
            Action::Finish(r) => return (r, spawns, terms),
        }
    }
}

const GRACEFUL: TerminateOutcome = TerminateOutcome::Exited(ExitKind::Graceful);

#[test]
fn new_slot_is_stopped_without_handle() {
    let s = ProcessSlot::new();
    assert_eq!(s.state(), ProcessState::Stopped);
    assert_eq!(s.handle(), None);
    assert!(s.is_idle());
    assert_eq!(s.op, PendingOp::Idle);
}

#[test]
fn start_then_start_launches_once() {
    let mut s = ProcessSlot::new();
    let mut pids = vec![100, 200];
    let (r1, n1, _) = drive(&mut s, Verb::Start, &mut pids, None, GRACEFUL);
    assert_eq!(r1, Ok(Outcome::Started(ProcessHandle { pid: 100, serial: 0 })));
    assert_eq!(n1, 1);
    let (r2, n2, _) = drive(&mut s, Verb::Start, &mut pids, None, GRACEFUL);
    assert_eq!(r2, Err(LifecycleError::AlreadyActive));
    assert_eq!(n2, 0);
    assert_eq!(s.state(), ProcessState::Running);
    assert_eq!(s.handle(), Some(ProcessHandle { pid: 100, serial: 0 }));
}

#[test]
fn stop_on_stopped_is_not_active() {
    let mut s = ProcessSlot::new();
    let before = s;
    let a = s.step(Event::Command(Verb::Stop));
    assert_eq!(a, Action::Finish(Err(LifecycleError::NotActive)));
    assert_eq!(s, before);
}

#[test]
fn stop_running_gracefully() {
    let mut s = ProcessSlot::new();
    let mut pids = vec![7];
    drive(&mut s, Verb::Start, &mut pids, None, GRACEFUL);
    let a = s.step(Event::Command(Verb::Stop));
    assert_eq!(a, Action::Terminate(ProcessHandle { pid: 7, serial: 0 }));
    assert_eq!(s.state(), ProcessState::Stopping);
    let a = s.step(Event::Terminated(GRACEFUL));
    assert_eq!(a, Action::Finish(Ok(Outcome::Stopped(ExitKind::Graceful))));
    assert_eq!(s.state(), ProcessState::Stopped);
    assert_eq!(s.handle(), None);
}

#[test]
fn stop_timeout_still_forces_stopped() {
    let mut s = ProcessSlot::new();
    let mut pids = vec![7];
    drive(&mut s, Verb::Start, &mut pids, None, GRACEFUL);
    let (r, _, n) = drive(&mut s, Verb::Stop, &mut pids, None, TerminateOutcome::TimedOut);
    assert_eq!(r, Err(LifecycleError::StopTimedOut));
    assert_eq!(n, 1);
    assert_eq!(s.state(), ProcessState::Stopped);
    assert_eq!(s.handle(), None);
}

#[test]
fn spawn_failure_returns_to_stopped() {
    let mut s = ProcessSlot::new();
    let mut pids = vec![];
    let (r, n, _) = drive(&mut s, Verb::Start, &mut pids, Some("no such file"), GRACEFUL);
    assert_eq!(r, Err(LifecycleError::SpawnFailed("no such file".to_string())));
    assert_eq!(n, 1);
    assert_eq!(s.state(), ProcessState::Stopped);
    assert_eq!(s.handle(), None);
}

#[test]
fn restart_running_gives_new_handle() {
    let mut s = ProcessSlot::new();
    let mut pids = vec![10, 10];
    drive(&mut s, Verb::Start, &mut pids, None, GRACEFUL);
    let old = s.handle().unwrap();
    let (r, spawns, terms) = drive(&mut s, Verb::Restart, &mut pids, None, GRACEFUL);
    let new = ProcessHandle { pid: 10, serial: 1 };
    assert_eq!(r, Ok(Outcome::Restarted(StopReport::Exited(ExitKind::Graceful), new)));
    assert_eq!((spawns, terms), (1, 1));
    assert_eq!(s.state(), ProcessState::Running);
    assert_eq!(s.handle(), Some(new));
    assert_ne!(s.handle(), Some(old));
}

#[test]
fn restart_after_forced_kill_ends_running() {
    let mut s = ProcessSlot::new();
    let mut pids = vec![10, 11];
    drive(&mut s, Verb::Start, &mut pids, None, GRACEFUL);
    let forced = TerminateOutcome::Exited(ExitKind::Forced);
    let (r, _, _) = drive(&mut s, Verb::Restart, &mut pids, None, forced);
    let h = ProcessHandle { pid: 11, serial: 1 };
    assert_eq!(r, Ok(Outcome::Restarted(StopReport::Exited(ExitKind::Forced), h)));
    assert_eq!(s.state(), ProcessState::Running);
}

#[test]
fn restart_after_stop_timeout_still_starts() {
    let mut s = ProcessSlot::new();
    let mut pids = vec![10, 11];
    drive(&mut s, Verb::Start, &mut pids, None, GRACEFUL);
    let (r, _, _) = drive(&mut s, Verb::Restart, &mut pids, None, TerminateOutcome::TimedOut);
    let h = ProcessHandle { pid: 11, serial: 1 };
    assert_eq!(r, Ok(Outcome::Restarted(StopReport::TimedOut, h)));
    assert_eq!(s.state(), ProcessState::Running);
}

#[test]
fn restart_stopped_starts() {
    let mut s = ProcessSlot::new();
    let mut pids = vec![5];
    let (r, spawns, terms) = drive(&mut s, Verb::Restart, &mut pids, None, GRACEFUL);
    let h = ProcessHandle { pid: 5, serial: 0 };
    assert_eq!(r, Ok(Outcome::Restarted(StopReport::WasNotActive, h)));
    assert_eq!((spawns, terms), (1, 0));
}

#[test]
fn restart_reports_start_failure() {
    let mut s = ProcessSlot::new();
    let mut pids = vec![5];
    drive(&mut s, Verb::Start, &mut pids, None, GRACEFUL);
    let (r, _, _) = drive(&mut s, Verb::Restart, &mut pids, Some("busy"), GRACEFUL);
    assert_eq!(r, Err(LifecycleError::SpawnFailed("busy".to_string())));
    assert_eq!(s.state(), ProcessState::Stopped);
    assert_eq!(s.handle(), None);
}

#[test]
fn stop_then_start_serialized() {
    let mut s = ProcessSlot::new();
    let mut pids = vec![42];
    let (r1, n1, _) = drive(&mut s, Verb::Stop, &mut pids, None, GRACEFUL);
    let (r2, n2, _) = drive(&mut s, Verb::Start, &mut pids, None, GRACEFUL);
    assert_eq!(r1, Err(LifecycleError::NotActive));
    assert_eq!(r2, Ok(Outcome::Started(ProcessHandle { pid: 42, serial: 0 })));
    assert_eq!(n1 + n2, 1);
}

#[test]
fn start_then_stop_on_running_serialized() {
    let mut s = ProcessSlot::new();
    let mut pids = vec![42];
    drive(&mut s, Verb::Start, &mut pids, None, GRACEFUL);
    let (r1, n1, _) = drive(&mut s, Verb::Start, &mut pids, None, GRACEFUL);
    let (r2, n2, t2) = drive(&mut s, Verb::Stop, &mut pids, None, GRACEFUL);
    assert_eq!(r1, Err(LifecycleError::AlreadyActive));
    assert_eq!(r2, Ok(Outcome::Stopped(ExitKind::Graceful)));
    assert_eq!((n1, n2, t2), (0, 0, 1));
}

#[test]
fn two_slots_are_independent() {
    let mut whisper = ProcessSlot::new();
    let mut autotype = ProcessSlot::new();
    let a = whisper.step(Event::Command(Verb::Start));
    let b = autotype.step(Event::Command(Verb::Start));
    assert_eq!(a, Action::Spawn);
    assert_eq!(b, Action::Spawn);
    whisper.step(Event::Spawned(Ok(1)));
    assert_eq!(whisper.state(), ProcessState::Running);
    assert_eq!(autotype.state(), ProcessState::Starting);
}

#[test]
fn invariant_holds_along_a_session() {
    let mut s = ProcessSlot::new();
    let mut pids = vec![1, 2, 3, 4];
    let verbs = [Verb::Start, Verb::Start, Verb::Restart, Verb::Stop, Verb::Stop, Verb::Restart];
    for v in verbs {
        drive(&mut s, v, &mut pids, None, GRACEFUL);
        let live = matches!(s.state(), ProcessState::Running | ProcessState::Stopping);
        assert_eq!(s.handle().is_some(), live);
        assert!(s.is_idle());
    }
    assert_eq!(s.next_serial, 3);
}

#[test]
fn events_out_of_phase_are_refused() {
    let s = ProcessSlot::new();
    assert!(!s.accepts(&Event::Spawned(Ok(1))));
    assert!(!s.accepts(&Event::Terminated(GRACEFUL)));
    assert!(s.accepts(&Event::Command(Verb::Restart)));
}

#[test]
fn tray_items_resolve() {
    assert_eq!(tray_command("show"), TrayCommand::ShowDashboard);
    assert_eq!(tray_command("hide"), TrayCommand::HideDashboard);
    assert_eq!(tray_command("start_recording"), TrayCommand::Lifecycle(AutotypeClient, Verb::Start));
    assert_eq!(tray_command("stop_recording"), TrayCommand::Lifecycle(AutotypeClient, Verb::Stop));
    assert_eq!(tray_command("start_server"), TrayCommand::Lifecycle(WhisperServer, Verb::Start));
    assert_eq!(tray_command("stop_server"), TrayCommand::Lifecycle(WhisperServer, Verb::Stop));
    assert_eq!(tray_command("restart_server"), TrayCommand::Lifecycle(WhisperServer, Verb::Restart));
    assert_eq!(tray_command("tail_logs"), TrayCommand::TailLogs);
    assert_eq!(tray_command("quit"), TrayCommand::Quit);
    assert_eq!(tray_command("Quit"), TrayCommand::Unknown);
    assert_eq!(tray_command(""), TrayCommand::Unknown);
}

#[test]
fn restart_passes_through_stopped() {
    let mut s = ProcessSlot::new();
    let mut pids = vec![10];
    drive(&mut s, Verb::Start, &mut pids, None, GRACEFUL);
    let old = s.handle().unwrap();
    assert_eq!(s.step(Event::Command(Verb::Restart)), Action::Terminate(old));
    assert_eq!(s.state(), ProcessState::Stopping);
    assert_eq!(s.step(Event::Terminated(GRACEFUL)), Action::Continue);
    assert_eq!(s.state(), ProcessState::Stopped);
    assert_eq!(s.handle(), None);
    assert_eq!(s.op, PendingOp::RestartStopped(StopReport::Exited(ExitKind::Graceful)));
    assert!(!s.is_idle());
    assert!(!s.accepts(&Event::Command(Verb::Start)));
    assert_eq!(s.step(Event::Resume), Action::Spawn);
    assert_eq!(s.state(), ProcessState::Starting);
    let a = s.step(Event::Spawned(Ok(11)));
    let new = ProcessHandle { pid: 11, serial: 1 };
    assert_eq!(a, Action::Finish(Ok(Outcome::Restarted(StopReport::Exited(ExitKind::Graceful), new))));
    assert_eq!(s.state(), ProcessState::Running);
}

#[test]
fn start_then_stop_on_stopped_serialized() {
    let mut s = ProcessSlot::new();
    let mut pids = vec![42];
    let (r1, n1, _) = drive(&mut s, Verb::Start, &mut pids, None, GRACEFUL);
    let (r2, n2, t2) = drive(&mut s, Verb::Stop, &mut pids, None, GRACEFUL);
    assert_eq!(r1, Ok(Outcome::Started(ProcessHandle { pid: 42, serial: 0 })));
    assert_eq!(r2, Ok(Outcome::Stopped(ExitKind::Graceful)));
    assert_eq!((n1, n2, t2), (1, 0, 1));
    assert_eq!(s.state(), ProcessState::Stopped);
    assert_eq!(s.handle(), None);
}

#[test]
fn termination_exits_gracefully() {
    let r = after_wait(TerminationPhase::AfterGraceful, true);
    assert_eq!(r, TerminationStep::Done(TerminateOutcome::Exited(ExitKind::Graceful)));
}

#[test]
fn termination_kills_after_grace() {
    assert_eq!(after_wait(TerminationPhase::AfterGraceful, false), TerminationStep::ForceKill);
    let r = after_wait(TerminationPhase::AfterForced, true);
    assert_eq!(r, TerminationStep::Done(TerminateOutcome::Exited(ExitKind::Forced)));
}

#[test]
fn termination_times_out_after_kill() {
    let r = after_wait(TerminationPhase::AfterForced, false);
    assert_eq!(r, TerminationStep::Done(TerminateOutcome::TimedOut));
}
