use vstd::prelude::*;
use crate::command::{opt_views, views};
use crate::lifecycle::{concat_chunks, LifecycleView};
use crate::supervisor::ExitOutcome;
use crate::text::push_text;

verus! {

/// The error object handed to a buffered invocation's callback when the command failed.
pub struct ExecError {
    pub message: String,
    pub code: i32,
    pub cmd: String,
}

/// What a buffered invocation's callback receives: an error, stdout and stderr.
pub struct ExecReport {
    pub error: Option<ExecError>,
    pub stdout: Vec<u8>,
    pub stderr: Vec<u8>,
}

/// The strings joined with one space between neighbours.
pub open spec fn joined(a: Seq<Seq<char>>) -> Seq<char>
    decreases a.len(),
{
    if a.len() == 0 {
        Seq::empty()
    } else if a.len() == 1 {
        a[0]
    } else {
        joined(a.drop_last()) + seq![' '] + a.last()
    }
}

/// The command line shown in a failure: the program, a space, and the arguments.
pub open spec fn command_line(command: Seq<char>, args: Option<Seq<Seq<char>>>) -> Seq<char> {
    command + seq![' '] + match args {
        Some(a) => joined(a),
        None => Seq::empty(),
    }
}

pub open spec fn failure_text(command: Seq<char>, args: Option<Seq<Seq<char>>>) -> Seq<char> {
    "error: Error: Command failed: "@ + command + " args"@ + command_line(command, args)
}

/// Whether a finished buffered invocation reports an error.
pub open spec fn exec_failed(outcome: ExitOutcome, stderr: Seq<u8>) -> bool {
    outcome.code != 0 || stderr.len() > 0
}

/// The callback's arguments as values: the error's message, code and command line,
/// then stdout and stderr.
pub open spec fn report_of(
    command: Seq<char>,
    args: Option<Seq<Seq<char>>>,
    outcome: ExitOutcome,
    stdout: Seq<u8>,
    stderr: Seq<u8>,
) -> (Option<(Seq<char>, i32, Seq<char>)>, Seq<u8>, Seq<u8>) {
    if exec_failed(outcome, stderr) {
        (
            Some((failure_text(command, args), outcome.code, command_line(command, args))),
            Seq::empty(),
            stderr,
        )
    } else {
        (None, stdout, Seq::empty())
    }
}

impl ExecReport {
    pub open spec fn values(&self) -> (Option<(Seq<char>, i32, Seq<char>)>, Seq<u8>, Seq<u8>) {
        (
            match self.error {
                Some(e) => Some((e.message@, e.code, e.cmd@)),
                None => None,
            },
            self.stdout@,
            self.stderr@,
        )
    }
}

proof fn lemma_joined_step(a: Seq<Seq<char>>, i: int)
    requires
        0 < i < a.len(),
    ensures
        joined(a.subrange(0, i + 1)) == joined(a.subrange(0, i)) + seq![' '] + a[i],
{
    assert(a.subrange(0, i + 1).drop_last() == a.subrange(0, i));
}

/// Formats the command line of a failed invocation.
pub fn format_command_line(command: &str, args: &Option<Vec<String>>) -> (r: String)
    ensures
        r@ == command_line(command@, opt_views(*args)),
{
    proof {
        reveal_strlit(" ");
    }
    let mut line = command.to_owned();
    push_text(&mut line, " ");
    if let Some(a) = args {
        let ghost s = views(a@);
        let ghost start = line@;
        let mut i: usize = 0;
        while i < a.len()
            invariant
                s == views(a@),
                i <= a.len(),
                line@ == start + joined(s.subrange(0, i as int)),
            decreases a.len() - i,
        {
            proof {
                reveal_strlit(" ");
                assert(s[i as int] == a@[i as int]@);
            }
            if i > 0 {
                proof {
                    lemma_joined_step(s, i as int);
                }
                push_text(&mut line, " ");
            } else {
                proof {
                    assert(s.subrange(0, 1) == seq![s[0]]);
                    assert(s.subrange(0, 0) == Seq::<Seq<char>>::empty());
                }
            }
            push_text(&mut line, a[i].as_str());
            proof {
                assert(line@ =~= start + joined(s.subrange(0, i + 1)));
            }
            i = i + 1;
        }
        proof {
            assert(s.subrange(0, a.len() as int) == s);
        }
    }
    proof {
        assert(line@ =~= command_line(command@, opt_views(*args)));
    }
    line
}

/// Decides what the callback of a buffered invocation receives once the child has
/// closed: an error with empty stdout when the exit code is not zero or stderr is not
/// empty, and otherwise no error, the collected stdout, and empty stderr.
pub fn exec_report(
    command: &str,
    args: &Option<Vec<String>>,
    outcome: &ExitOutcome,
    stdout: Vec<u8>,
    stderr: Vec<u8>,
) -> (r: ExecReport)
    ensures
        r.values() == report_of(command@, opt_views(*args), *outcome, stdout@, stderr@),
{
    if outcome.code != 0 || stderr.len() > 0 {
        let cmd = format_command_line(command, args);
        let mut message = String::from_str("error: Error: Command failed: ");
        push_text(&mut message, command);
        push_text(&mut message, " args");
        push_text(&mut message, cmd.as_str());
        ExecReport {
            error: Some(ExecError { message, code: outcome.code, cmd }),
            stdout: Vec::new(),
            stderr,
        }
    } else {
        ExecReport { error: None, stdout, stderr: Vec::new() }
    }
}

/// Two buffered runs whose children exit alike and write the same bytes, however
/// the reads split them into chunks, give the callback the same arguments.
pub proof fn lemma_exec_report_deterministic(
    command: Seq<char>,
    args: Option<Seq<Seq<char>>>,
    first: LifecycleView,
    second: LifecycleView,
)
    requires
        first.wf(),
        second.wf(),
        first.closed,
        second.closed,
        first.accumulate,
        second.accumulate,
        first.outcome == second.outcome,
        concat_chunks(first.stdout_chunks) == concat_chunks(second.stdout_chunks),
        concat_chunks(first.stderr_chunks) == concat_chunks(second.stderr_chunks),
    ensures
        report_of(command, args, first.outcome.unwrap(), first.stdout, first.stderr)
            == report_of(command, args, second.outcome.unwrap(), second.stdout, second.stderr),
{
}

/// What happens when the process could not be started.
pub enum SpawnFailure {
    /// No `error` listener: the failure is raised where the call was made.
    Raise(String),
    /// Emit `error` with the message and, in a buffered invocation, call the callback
    /// with it and empty output.
    Report { message: String, invoke_callback: bool },
}

pub open spec fn spawn_failure_text(command: Seq<char>, detail: Seq<char>) -> Seq<char> {
    "Child process failed to spawn \""@ + command + "\". "@ + detail
}

/// Decides how a failure to start the process reaches the caller.
pub fn spawn_failure(command: &str, detail: &str, has_error_listener: bool, buffered: bool) -> (r:
    SpawnFailure)
    ensures
        match r {
            SpawnFailure::Raise(m) => !buffered && !has_error_listener && m@ == spawn_failure_text(
                command@,
                detail@,
            ),
            SpawnFailure::Report { message, invoke_callback } => (buffered || has_error_listener)
                && invoke_callback == buffered && message@ == spawn_failure_text(command@, detail@),
        },
{
    let mut message = String::from_str("Child process failed to spawn \"");
    push_text(&mut message, command);
    push_text(&mut message, "\". ");
    push_text(&mut message, detail);
    if buffered || has_error_listener {
        SpawnFailure::Report { message, invoke_callback: buffered }
    } else {
        SpawnFailure::Raise(message)
    }
}

} // verus!
