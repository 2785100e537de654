use vstd::prelude::*;
use crate::command::{opt_views, Platform};
use crate::signal::{process_signal_from_str, signal_number_of, SIGKILL, SIGTERM};
use crate::supervisor::ExitOutcome;
use crate::text::push_text;

verus! {

/// The argument of a `kill` call.
pub enum KillSignal {
    /// No argument: the standard termination signal.
    Default,
    Number(i32),
    /// A signal name such as "SIGINT"; an unknown name means unconditional termination.
    Name(String),
    /// A value of another kind, which means unconditional termination.
    Other,
}

/// The handle of a spawned process, as its caller sees it.
pub struct ChildProcess {
    command: String,
    args: Option<Vec<String>>,
    platform: Platform,
    pid: Option<u32>,
    kill_open: bool,
}

/// The model of a process handle.
pub struct ChildProcessView {
    pub command: Seq<char>,
    pub args: Option<Seq<Seq<char>>>,
    pub platform: Platform,
    pub pid: Option<u32>,
    /// Whether the one kill request of the handle is still available.
    pub kill_available: bool,
}

impl View for ChildProcess {
    type V = ChildProcessView;

    closed spec fn view(&self) -> ChildProcessView {
        ChildProcessView {
            command: self.command@,
            args: opt_views(self.args),
            platform: self.platform,
            pid: self.pid,
            kill_available: self.kill_open,
        }
    }
}

/// The message that a kill request sends to the supervisor: a signal, or `None` for
/// unconditional termination.
pub open spec fn requested_signal(platform: Platform, signal: KillSignal) -> Option<i32> {
    if platform == Platform::Posix {
        match signal {
            KillSignal::Default => Some(SIGTERM),
            KillSignal::Number(n) => Some(n),
            KillSignal::Name(s) => signal_number_of(s@),
            KillSignal::Other => None,
        }
    } else {
        Some(SIGKILL)
    }
}

/// A `kill` call on a handle: the handle after it, and the message to send, if the
/// request was still available.
pub open spec fn kill_step(p: ChildProcessView, signal: KillSignal) -> (
    ChildProcessView,
    Option<Option<i32>>,
) {
    (
        ChildProcessView { kill_available: false, ..p },
        if p.kill_available {
            Some(requested_signal(p.platform, signal))
        } else {
            None
        },
    )
}

impl ChildProcess {
    /// A handle created before the spawn attempt: no pid yet, and one kill request
    /// available.
    pub fn new(command: String, args: Option<Vec<String>>, platform: Platform) -> (r: ChildProcess)
        ensures
            r@ == (ChildProcessView {
                command: command@,
                args: opt_views(args),
                platform,
                pid: None,
                kill_available: true,
            }),
    {
        ChildProcess { command, args, platform, pid: None, kill_open: true }
    }

    /// Records the pid that the system gave the started process; it is set once.
    pub fn set_pid(&mut self, pid: Option<u32>)
        requires
            old(self)@.pid is None,
        ensures
            final(self)@ == (ChildProcessView { pid, ..old(self)@ }),
    {
        self.pid = pid;
    }

    /// The process id, absent until the process has started.
    pub fn pid(&self) -> (r: Option<u32>)
        ensures
            r == self@.pid,
    {
        self.pid
    }

    /// The command that was started.
    pub fn command(&self) -> (r: &String)
        ensures
            r@ == self@.command,
    {
        &self.command
    }

    /// The arguments it was started with.
    pub fn args(&self) -> (r: &Option<Vec<String>>)
        ensures
            opt_views(*r) == self@.args,
    {
        &self.args
    }

    /// Takes the one kill request of this handle. Returns the message to send to the
    /// supervisor, or `None` when the request was already taken; `kill` reports
    /// success only when a message was returned and then delivered.
    pub fn kill(&mut self, signal: &KillSignal) -> (r: Option<Option<i32>>)
        ensures
            (final(self)@, r) == kill_step(old(self)@, *signal),
    {
        if !self.kill_open {
            return None;
        }
        self.kill_open = false;
        let message = match self.platform {
            Platform::Windows => Some(SIGKILL),
            Platform::Posix => match signal {
                KillSignal::Default => Some(SIGTERM),
                KillSignal::Number(n) => Some(*n),
                KillSignal::Name(s) => process_signal_from_str(s.as_str()),
                KillSignal::Other => None,
            },
        };
        Some(message)
    }
}

/// The kill request is single-shot: on a handle that still has it, a first `kill`
/// sends a message and a second one, whatever its signal, finds none left.
pub proof fn lemma_kill_single_shot(p: ChildProcessView, first: KillSignal, second: KillSignal)
    requires
        p.kill_available,
    ensures
        kill_step(p, first).1 is Some,
        kill_step(kill_step(p, first).0, second).1 is None,
        kill_step(kill_step(p, first).0, second).0 == kill_step(p, first).0,
{
}

} // verus!
