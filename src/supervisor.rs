use vstd::prelude::*;

use crate::process::{
    report_of, LifecycleError, Outcome, ProcessHandle, ProcessState, StopReport,
    TerminateOutcome, Verb,
};

verus! {

/// The lifecycle operation in flight on a slot, if any.
#[derive(Clone, Copy, Debug, PartialEq, Eq, Structural)]
pub enum PendingOp {
    Idle,
    Start,
    Stop,
    /// A restart waiting for its stop half to finish.
    RestartStopping,
    /// A restart whose stop half is done, with what it reported; the slot
    /// rests in `Stopped` before the start half begins.
    RestartStopped(StopReport),
    /// A restart waiting for its start half, with what its stop half reported.
    RestartStarting(StopReport),
}

/// What the driver of a slot reports to it: a request, or the answer of the
/// handle registry to the last action.
#[derive(Debug, PartialEq, Eq)]
pub enum Event {
    Command(Verb),
    /// The registry's spawn: the new process's pid, or why it failed.
    Spawned(Result<u32, String>),
    Terminated(TerminateOutcome),
    /// Go on with the start half of a restart, after `Action::Continue`.
    Resume,
}

/// What the slot asks its driver to do next.
#[derive(Debug, PartialEq, Eq)]
pub enum Action {
    /// Launch the process from its descriptor and report `Event::Spawned`.
    Spawn,
    /// Terminate this process (graceful, then forced) and report `Event::Terminated`.
    Terminate(ProcessHandle),
    /// The stop half of a restart is over and the slot is stopped; report
    /// `Event::Resume` to start the process again.
    Continue,
    /// The operation is over, with this result.
    Finish(Result<Outcome, LifecycleError>),
}

/// The supervisor's record for one managed process: its state, the handle of
/// its live process, the operation in flight and the next launch serial.
/// Each managed process has its own slot, so that operations on different
/// processes never wait for one another.
#[derive(Clone, Copy, Debug, PartialEq, Eq, Structural)]
pub struct ProcessSlot {
    pub state: ProcessState,
    pub handle: Option<ProcessHandle>,
    pub op: PendingOp,
    pub next_serial: u64,
}

impl ProcessSlot {
    /// No operation is in flight: the slot waits for a command.
    pub open spec fn idle(self) -> bool {
        self.op == PendingOp::Idle
    }

    /// A handle is held exactly while a launched process may be alive
    /// (running, or being stopped); during a spawn none is known yet.
    pub open spec fn handle_matches_state(self) -> bool {
        self.handle.is_some() <==> (self.state == ProcessState::Running || self.state
            == ProcessState::Stopping)
    }

    pub open spec fn wf(self) -> bool {
        &&& self.handle_matches_state()
        &&& (self.idle() ==> (self.state == ProcessState::Stopped || self.state
            == ProcessState::Running))
        &&& (self.state == ProcessState::Stopped ==> (self.idle() || self.op is RestartStopped))
        &&& (self.state == ProcessState::Running ==> self.idle())
        &&& (self.state == ProcessState::Starting ==> (self.op == PendingOp::Start
            || self.op is RestartStarting))
        &&& (self.state == ProcessState::Stopping ==> (self.op == PendingOp::Stop || self.op
            == PendingOp::RestartStopping))
        &&& (self.handle matches Some(h) ==> h.serial < self.next_serial)
    }

    /// The events the slot takes in its current state: a command when idle,
    /// a spawn result while starting, a termination result while stopping,
    /// a resume between the halves of a restart. A launch needs a serial
    /// left to stamp.
    pub open spec fn accepts_spec(self, ev: Event) -> bool {
        match ev {
            Event::Command(_) => self.idle(),
            Event::Spawned(r) => self.state == ProcessState::Starting && (r is Ok
                ==> self.next_serial < u64::MAX),
            Event::Terminated(_) => self.state == ProcessState::Stopping,
            Event::Resume => self.op is RestartStopped,
        }
    }

    /// The slot with a new state and pending operation, the rest kept.
    pub open spec fn with(self, state: ProcessState, op: PendingOp) -> ProcessSlot {
        ProcessSlot { state, handle: self.handle, op, next_serial: self.next_serial }
    }

    /// The slot with no process: stopped, no handle, nothing in flight.
    pub open spec fn cleared(self) -> ProcessSlot {
        ProcessSlot {
            state: ProcessState::Stopped,
            handle: None,
            op: PendingOp::Idle,
            next_serial: self.next_serial,
        }
    }
}

/// The response to a command on an idle slot.
pub open spec fn command_next(s: ProcessSlot, verb: Verb) -> (ProcessSlot, Action) {
    match verb {
        Verb::Start => if s.state == ProcessState::Stopped {
            (s.with(ProcessState::Starting, PendingOp::Start), Action::Spawn)
        } else {
            (s, Action::Finish(Err(LifecycleError::AlreadyActive)))
        },
        Verb::Stop => if s.state == ProcessState::Running {
            (s.with(ProcessState::Stopping, PendingOp::Stop), Action::Terminate(s.handle.unwrap()))
        } else {
            (s, Action::Finish(Err(LifecycleError::NotActive)))
        },
        Verb::Restart => if s.state == ProcessState::Running {
            (
                s.with(ProcessState::Stopping, PendingOp::RestartStopping),
                Action::Terminate(s.handle.unwrap()),
            )
        } else {
            (
                s.with(
                    ProcessState::Starting,
                    PendingOp::RestartStarting(StopReport::WasNotActive),
                ),
                Action::Spawn,
            )
        },
    }
}

/// The response to the registry's spawn result on a starting slot.
pub open spec fn spawned_next(s: ProcessSlot, r: Result<u32, String>) -> (ProcessSlot, Action) {
    match r {
        Ok(pid) => {
            let h = ProcessHandle { pid, serial: s.next_serial };
            let outcome = match s.op {
                PendingOp::RestartStarting(rep) => Outcome::Restarted(rep, h),
                _ => Outcome::Started(h),
            };
            (
                ProcessSlot {
                    state: ProcessState::Running,
                    handle: Some(h),
                    op: PendingOp::Idle,
                    next_serial: (s.next_serial + 1) as u64,
                },
                Action::Finish(Ok(outcome)),
            )
        },
        Err(reason) => (s.cleared(), Action::Finish(Err(LifecycleError::SpawnFailed(reason)))),
    }
}

/// The response to the registry's termination result on a stopping slot.
/// Whatever the outcome, the handle is dropped and the process counts as gone.
pub open spec fn terminated_next(s: ProcessSlot, o: TerminateOutcome) -> (ProcessSlot, Action) {
    if s.op == PendingOp::RestartStopping {
        (
            ProcessSlot {
                state: ProcessState::Stopped,
                handle: None,
                op: PendingOp::RestartStopped(report_of(o)),
                next_serial: s.next_serial,
            },
            Action::Continue,
        )
    } else {
        (
            s.cleared(),
            Action::Finish(
                match o {
                    TerminateOutcome::Exited(k) => Ok(Outcome::Stopped(k)),
                    TerminateOutcome::TimedOut => Err(LifecycleError::StopTimedOut),
                },
            ),
        )
    }
}

/// The start half of a restart, from the stopped slot its stop half left.
pub open spec fn resume_next(s: ProcessSlot) -> (ProcessSlot, Action) {
    match s.op {
        PendingOp::RestartStopped(rep) => (
            s.with(ProcessState::Starting, PendingOp::RestartStarting(rep)),
            Action::Spawn,
        ),
        _ => (s, Action::Continue),
    }
}

/// One transition of the lifecycle state machine.
pub open spec fn step_next(s: ProcessSlot, ev: Event) -> (ProcessSlot, Action) {
    match ev {
        Event::Command(verb) => command_next(s, verb),
        Event::Spawned(r) => spawned_next(s, r),
        Event::Terminated(o) => terminated_next(s, o),
        Event::Resume => resume_next(s),
    }
}

/// The state changes of the lifecycle: Stopped to Starting to Running to
/// Stopping to Stopped, and Starting back to Stopped when a spawn fails.
pub open spec fn allowed_edge(from: ProcessState, to: ProcessState) -> bool {
    ||| (from == ProcessState::Stopped && to == ProcessState::Starting)
    ||| (from == ProcessState::Starting && to == ProcessState::Running)
    ||| (from == ProcessState::Starting && to == ProcessState::Stopped)
    ||| (from == ProcessState::Running && to == ProcessState::Stopping)
    ||| (from == ProcessState::Stopping && to == ProcessState::Stopped)
}

/// A step keeps the state or moves it along one allowed edge.
pub open spec fn step_moves_allowed(from: ProcessState, to: ProcessState) -> bool {
    from == to || allowed_edge(from, to)
}

impl ProcessSlot {
    /// A slot for a process that has not been launched.
    pub fn new() -> (r: ProcessSlot)
        ensures
            r.wf(),
            r.state == ProcessState::Stopped,
            r.handle is None,
            r.op == PendingOp::Idle,
            r.next_serial == 0,
    {
        ProcessSlot { state: ProcessState::Stopped, handle: None, op: PendingOp::Idle, next_serial: 0 }
    }

    pub fn state(&self) -> (r: ProcessState)
        ensures
            r == self.state,
    {
        self.state
    }

    pub fn handle(&self) -> (r: Option<ProcessHandle>)
        ensures
            r == self.handle,
    {
        self.handle
    }

    /// Whether no operation is in flight.
    pub fn is_idle(&self) -> (r: bool)
        ensures
            r == self.idle(),
    {
        match self.op {
            PendingOp::Idle => true,
            _ => false,
        }
    }

    /// Whether `step` takes this event now.
    pub fn accepts(&self, ev: &Event) -> (r: bool)
        ensures
            r == self.accepts_spec(*ev),
    {
        match ev {
            Event::Command(_) => self.is_idle(),
            Event::Spawned(res) => match self.state {
                ProcessState::Starting => match res {
                    Ok(_) => self.next_serial < u64::MAX,
                    Err(_) => true,
                },
                _ => false,
            },
            Event::Terminated(_) => match self.state {
                ProcessState::Stopping => true,
                _ => false,
            },
            Event::Resume => match self.op {
                PendingOp::RestartStopped(_) => true,
                _ => false,
            },
        }
    }

    /// Advances the state machine by one event and says what to do next.
    pub fn step(&mut self, ev: Event) -> (r: Action)
        requires
            old(self).wf(),
            old(self).accepts_spec(ev),
        ensures
            (*final(self), r) == step_next(*old(self), ev),
            final(self).wf(),
            step_moves_allowed(old(self).state, final(self).state),
    {
        match ev {
            Event::Command(verb) => self.command(verb),
            Event::Spawned(res) => self.spawned(res),
            Event::Terminated(o) => self.terminated(o),
            Event::Resume => self.resume(),
        }
    }

    fn resume(&mut self) -> (r: Action)
        requires
            old(self).wf(),
            old(self).op is RestartStopped,
        ensures
            (*final(self), r) == resume_next(*old(self)),
            final(self).wf(),
    {
        match self.op {
            PendingOp::RestartStopped(rep) => {
                self.state = ProcessState::Starting;
                self.op = PendingOp::RestartStarting(rep);
                Action::Spawn
            },
            _ => Action::Continue,
        }
    }

    fn command(&mut self, verb: Verb) -> (r: Action)
        requires
            old(self).wf(),
            old(self).idle(),
        ensures
            (*final(self), r) == command_next(*old(self), verb),
            final(self).wf(),
    {
        let running = match self.state {
            ProcessState::Running => true,
            _ => false,
        };
        match verb {
            Verb::Start => {
                if running {
                    Action::Finish(Err(LifecycleError::AlreadyActive))
                } else {
                    self.state = ProcessState::Starting;
                    self.op = PendingOp::Start;
                    Action::Spawn
                }
            },
            Verb::Stop => {
                match self.handle {
                    Some(h) => {
                        self.state = ProcessState::Stopping;
                        self.op = PendingOp::Stop;
                        Action::Terminate(h)
                    },
                    None => Action::Finish(Err(LifecycleError::NotActive)),
                }
            },
            Verb::Restart => {
                match self.handle {
                    Some(h) => {
                        self.state = ProcessState::Stopping;
                        self.op = PendingOp::RestartStopping;
                        Action::Terminate(h)
                    },
                    None => {
                        self.state = ProcessState::Starting;
                        self.op = PendingOp::RestartStarting(StopReport::WasNotActive);
                        Action::Spawn
                    },
                }
            },
        }
    }

    fn spawned(&mut self, res: Result<u32, String>) -> (r: Action)
        requires
            old(self).wf(),
            old(self).accepts_spec(Event::Spawned(res)),
        ensures
            (*final(self), r) == spawned_next(*old(self), res),
            final(self).wf(),
    {
        match res {
            Ok(pid) => {
                let h = ProcessHandle { pid, serial: self.next_serial };
                let outcome = match self.op {
                    PendingOp::RestartStarting(rep) => Outcome::Restarted(rep, h),
                    _ => Outcome::Started(h),
                };
                self.state = ProcessState::Running;
                self.handle = Some(h);
                self.op = PendingOp::Idle;
                self.next_serial = self.next_serial + 1;
                Action::Finish(Ok(outcome))
            },
            Err(reason) => {
                self.state = ProcessState::Stopped;
                self.handle = None;
                self.op = PendingOp::Idle;
                Action::Finish(Err(LifecycleError::SpawnFailed(reason)))
            },
        }
    }

    fn terminated(&mut self, o: TerminateOutcome) -> (r: Action)
        requires
            old(self).wf(),
            old(self).state == ProcessState::Stopping,
        ensures
            (*final(self), r) == terminated_next(*old(self), o),
            final(self).wf(),
    {
        self.handle = None;
        match self.op {
            PendingOp::RestartStopping => {
                let rep = match o {
                    TerminateOutcome::Exited(k) => StopReport::Exited(k),
                    TerminateOutcome::TimedOut => StopReport::TimedOut,
                };
                self.state = ProcessState::Stopped;
                self.op = PendingOp::RestartStopped(rep);
                Action::Continue
            },
            _ => {
                self.state = ProcessState::Stopped;
                self.op = PendingOp::Idle;
                match o {
                    TerminateOutcome::Exited(k) => Action::Finish(Ok(Outcome::Stopped(k))),
                    TerminateOutcome::TimedOut => Action::Finish(Err(LifecycleError::StopTimedOut)),
                }
            },
        }
    }
}

} // verus!
