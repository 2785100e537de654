use vstd::prelude::*;
use crate::command::Platform;
use crate::signal::{delivery_failure_message, delivery_failure_text, signal_name_of, signal_str_from_i32};

verus! {

/// How the child ended: its exit code (0 when the system gave none) and, on POSIX,
/// the number of the signal that ended it (0 when none did).
#[derive(Clone, Copy, Debug, PartialEq, Eq, Structural)]
pub struct ExitOutcome {
    pub code: i32,
    pub signal: Option<i32>,
}

/// Where the supervision of a child stands.
#[derive(Clone, Copy, Debug, PartialEq, Eq, Structural)]
pub enum SupervisorState {
    /// Waiting for the child to exit or for a kill request.
    Running,
    /// A signal is being delivered to the child's process group.
    Delivering(i32),
    /// The child is being terminated unconditionally.
    Terminating,
    /// The child exited by itself, or after a delivered signal.
    Exited(ExitOutcome),
    /// The child was terminated unconditionally.
    Killed(ExitOutcome),
    /// Supervision failed.
    Failed,
}

/// What happened while the supervisor waited.
pub enum SupervisorEvent {
    /// The system reported the child's exit status.
    ChildExited { code: Option<i32>, signal: Option<i32> },
    /// A kill request arrived: a signal, or `None` for unconditional termination.
    KillReceived(Option<i32>),
    /// Whether delivering the signal to the process group succeeded.
    SignalDelivered(bool),
    /// Waiting for or terminating the child failed.
    WaitFailed(String),
}

/// What the supervisor asks its driver to do next.
pub enum SupervisorAction {
    /// Go on waiting for the child's exit and for kill requests.
    Wait,
    /// Send `signal` to the process group `pid`, then report the result.
    DeliverSignal { signal: i32, pid: u32 },
    /// Terminate the child unconditionally, then report its exit status.
    ForceTerminate,
    /// Supervision is over.
    Finish(ExitOutcome),
    /// Supervision failed with this message.
    Fail(String),
}

/// The decisions of the wait loop over one child process.
pub struct Supervisor {
    pub state: SupervisorState,
    pub pid: Option<u32>,
    pub platform: Platform,
}

/// The outcome recorded for an exit status.
pub open spec fn outcome_of(platform: Platform, code: Option<i32>, signal: Option<i32>) -> ExitOutcome {
    ExitOutcome {
        code: match code {
            Some(c) => c,
            None => 0,
        },
        signal: if platform == Platform::Posix {
            Some(
                match signal {
                    Some(s) => s,
                    None => 0,
                },
            )
        } else {
            None
        },
    }
}

fn record_outcome(platform: Platform, code: Option<i32>, signal: Option<i32>) -> (r: ExitOutcome)
    ensures
        r == outcome_of(platform, code, signal),
{
    let c = match code {
        Some(c) => c,
        None => 0,
    };
    let s = match platform {
        Platform::Posix => Some(
            match signal {
                Some(s) => s,
                None => 0,
            },
        ),
        Platform::Windows => None,
    };
    ExitOutcome { code: c, signal: s }
}

impl Supervisor {
    /// Whether supervision is over.
    pub open spec fn finished(&self) -> bool {
        match self.state {
            SupervisorState::Exited(_) | SupervisorState::Killed(_) | SupervisorState::Failed => true,
            _ => false,
        }
    }

    /// A signal is delivered only to a child whose pid is known.
    pub open spec fn wf(&self) -> bool {
        self.state is Delivering ==> self.pid is Some
    }

    /// The state after `event`.
    pub open spec fn next_state(&self, event: SupervisorEvent) -> SupervisorState {
        match (self.state, event) {
            (_, SupervisorEvent::WaitFailed(_)) => SupervisorState::Failed,
            (SupervisorState::Running, SupervisorEvent::ChildExited { code, signal }) =>
                SupervisorState::Exited(outcome_of(self.platform, code, signal)),
            (SupervisorState::Running, SupervisorEvent::KillReceived(sig)) =>
                if self.platform == Platform::Posix && sig is Some {
                    if self.pid is Some {
                        SupervisorState::Delivering(sig.unwrap())
                    } else {
                        SupervisorState::Running
                    }
                } else {
                    SupervisorState::Terminating
                },
            (SupervisorState::Delivering(s), SupervisorEvent::SignalDelivered(ok)) =>
                if ok {
                    SupervisorState::Running
                } else {
                    SupervisorState::Failed
                },
            (SupervisorState::Terminating, SupervisorEvent::ChildExited { code, signal }) =>
                SupervisorState::Killed(outcome_of(self.platform, code, signal)),
            (s, _) => s,
        }
    }

    /// Whether `action` is what the supervisor asks for when `event` arrives.
    pub open spec fn action_for(&self, event: SupervisorEvent, action: SupervisorAction) -> bool {
        let next = self.next_state(event);
        match event {
            SupervisorEvent::WaitFailed(m) => action == SupervisorAction::Fail(m),
            _ => match next {
                SupervisorState::Exited(o) | SupervisorState::Killed(o) =>
                    action == SupervisorAction::Finish(o),
                SupervisorState::Delivering(s) => if self.state is Delivering {
                    action is Wait
                } else {
                    action == SupervisorAction::DeliverSignal { signal: s, pid: self.pid.unwrap() }
                },
                SupervisorState::Terminating => if self.state is Terminating {
                    action is Wait
                } else {
                    action is ForceTerminate
                },
                SupervisorState::Failed => match (self.state, action) {
                    (SupervisorState::Delivering(s), SupervisorAction::Fail(m)) =>
                        m@ == delivery_failure_text(s, self.pid.unwrap()),
                    _ => false,
                },
                SupervisorState::Running => action is Wait,
            },
        }
    }

    /// A supervisor for a child that has just started.
    pub fn new(pid: Option<u32>, platform: Platform) -> (r: Supervisor)
        ensures
            r.state == SupervisorState::Running,
            r.pid == pid,
            r.platform == platform,
            r.wf(),
    {
        Supervisor { state: SupervisorState::Running, pid, platform }
    }

    /// Takes one event of the wait loop and says what to do next.
    pub fn step(&mut self, event: SupervisorEvent) -> (r: SupervisorAction)
        requires
            old(self).wf(),
            !old(self).finished(),
        ensures
            final(self).wf(),
            final(self).pid == old(self).pid,
            final(self).platform == old(self).platform,
            final(self).state == old(self).next_state(event),
            old(self).action_for(event, r),
    {
        match event {
            SupervisorEvent::WaitFailed(m) => {
                self.state = SupervisorState::Failed;
                SupervisorAction::Fail(m)
            },
            SupervisorEvent::ChildExited { code, signal } => match self.state {
                SupervisorState::Running => {
                    let o = record_outcome(self.platform, code, signal);
                    self.state = SupervisorState::Exited(o);
                    SupervisorAction::Finish(o)
                },
                SupervisorState::Terminating => {
                    let o = record_outcome(self.platform, code, signal);
                    self.state = SupervisorState::Killed(o);
                    SupervisorAction::Finish(o)
                },
                _ => SupervisorAction::Wait,
            },
            SupervisorEvent::KillReceived(sig) => match self.state {
                SupervisorState::Running => {
                    match (self.platform, sig) {
                        (Platform::Posix, Some(s)) => match self.pid {
                            Some(p) => {
                                self.state = SupervisorState::Delivering(s);
                                SupervisorAction::DeliverSignal { signal: s, pid: p }
                            },
                            None => SupervisorAction::Wait,
                        },
                        _ => {
                            self.state = SupervisorState::Terminating;
                            SupervisorAction::ForceTerminate
                        },
                    }
                },
                _ => SupervisorAction::Wait,
            },
            SupervisorEvent::SignalDelivered(ok) => match self.state {
                SupervisorState::Delivering(s) => {
                    if ok {
                        self.state = SupervisorState::Running;
                        SupervisorAction::Wait
                    } else {
                        let p = match self.pid {
                            Some(p) => p,
                            None => 0,
                        };
                        self.state = SupervisorState::Failed;
                        SupervisorAction::Fail(delivery_failure_message(s, p))
                    }
                },
                _ => SupervisorAction::Wait,
            },
        }
    }
}

/// The signal name reported with the `exit` and `close` events: the name of the
/// terminating signal on POSIX (none for an unknown number or none at all), and a
/// fixed stand-in elsewhere.
pub fn signal_label(outcome: &ExitOutcome, platform: Platform) -> (r: Option<&'static str>)
    ensures
        platform == Platform::Windows ==> r == Some("SIGKILL"),
        platform == Platform::Posix ==> match outcome.signal {
            Some(s) => match r {
                Some(t) => signal_name_of(s) == Some(t@),
                None => signal_name_of(s) is None,
            },
            None => r is None,
        },
{
    match platform {
        Platform::Windows => Some("SIGKILL"),
        Platform::Posix => match outcome.signal {
            Some(s) => signal_str_from_i32(s),
            None => None,
        },
    }
}

} // verus!
