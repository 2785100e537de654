use vstd::prelude::*;
use crate::supervisor::ExitOutcome;

verus! {

/// One of the child's two output pipes.
#[derive(Clone, Copy, Debug, PartialEq, Eq, Structural)]
pub enum Pipe {
    Stdout,
    Stderr,
}

/// A notification that the handle owes its listeners, in the order given.
#[derive(Clone, Copy, Debug, PartialEq, Eq, Structural)]
pub enum Notice {
    /// Emit `exit(code, signal)`.
    Exit(ExitOutcome),
    /// Tell the stdin stream that no more data will be written.
    EndStdin,
    /// Emit `close(code, signal)`.
    Close(ExitOutcome),
}

/// Sequences the events of one running child: its exit, the end of each output
/// pipe, and the notifications that follow; collects the output when asked to.
pub struct Lifecycle {
    outcome: Option<ExitOutcome>,
    stdout_open: bool,
    stderr_open: bool,
    closed: bool,
    accumulate: bool,
    stdout: Vec<u8>,
    stderr: Vec<u8>,
    log: Ghost<Seq<Notice>>,
    stdout_chunks: Ghost<Seq<Seq<u8>>>,
    stderr_chunks: Ghost<Seq<Seq<u8>>>,
}

/// The model of a lifecycle.
pub struct LifecycleView {
    /// How the child ended, once it has.
    pub outcome: Option<ExitOutcome>,
    pub stdout_open: bool,
    pub stderr_open: bool,
    /// Whether `close` has been emitted.
    pub closed: bool,
    /// Whether output is collected.
    pub accumulate: bool,
    pub stdout: Seq<u8>,
    pub stderr: Seq<u8>,
    /// Every notice handed out so far, in order.
    pub log: Seq<Notice>,
    /// Every chunk read from each pipe so far, in order.
    pub stdout_chunks: Seq<Seq<u8>>,
    pub stderr_chunks: Seq<Seq<u8>>,
}

impl View for Lifecycle {
    type V = LifecycleView;

    closed spec fn view(&self) -> LifecycleView {
        LifecycleView {
            outcome: self.outcome,
            stdout_open: self.stdout_open,
            stderr_open: self.stderr_open,
            closed: self.closed,
            accumulate: self.accumulate,
            stdout: self.stdout@,
            stderr: self.stderr@,
            log: self.log@,
            stdout_chunks: self.stdout_chunks@,
            stderr_chunks: self.stderr_chunks@,
        }
    }
}

/// The bytes of a sequence of chunks, in order.
pub open spec fn concat_chunks(c: Seq<Seq<u8>>) -> Seq<u8>
    decreases c.len(),
{
    if c.len() == 0 {
        Seq::empty()
    } else {
        concat_chunks(c.drop_last()) + c.last()
    }
}

proof fn lemma_concat_push(c: Seq<Seq<u8>>, x: Seq<u8>)
    ensures
        concat_chunks(c.push(x)) == concat_chunks(c) + x,
{
    assert(c.push(x).drop_last() == c);
}

/// The notices owed for a given outcome, before and after `close`.
pub open spec fn notices_for(outcome: Option<ExitOutcome>, closed: bool) -> Seq<Notice> {
    match outcome {
        None => Seq::empty(),
        Some(o) => if closed {
            seq![Notice::Exit(o), Notice::EndStdin, Notice::Close(o)]
        } else {
            seq![Notice::Exit(o)]
        },
    }
}

impl LifecycleView {
    pub open spec fn wf(&self) -> bool {
        &&& self.closed <==> (self.outcome is Some && !self.stdout_open && !self.stderr_open)
        &&& self.log == notices_for(self.outcome, self.closed)
        &&& self.stdout == if self.accumulate {
            concat_chunks(self.stdout_chunks)
        } else {
            Seq::empty()
        }
        &&& self.stderr == if self.accumulate {
            concat_chunks(self.stderr_chunks)
        } else {
            Seq::empty()
        }
    }

    pub open spec fn pipe_open(&self, pipe: Pipe) -> bool {
        match pipe {
            Pipe::Stdout => self.stdout_open,
            Pipe::Stderr => self.stderr_open,
        }
    }
}

impl Lifecycle {
    /// The lifecycle of a child just started; a pipe that is not piped counts as ended.
    pub fn new(stdout_piped: bool, stderr_piped: bool, accumulate: bool) -> (r: Lifecycle)
        ensures
            r@.wf(),
            r@.outcome is None,
            r@.stdout_open == stdout_piped,
            r@.stderr_open == stderr_piped,
            r@.accumulate == accumulate,
            r@.log == Seq::<Notice>::empty(),
            r@.stdout_chunks == Seq::<Seq<u8>>::empty(),
            r@.stderr_chunks == Seq::<Seq<u8>>::empty(),
    {
        Lifecycle {
            outcome: None,
            stdout_open: stdout_piped,
            stderr_open: stderr_piped,
            closed: false,
            accumulate,
            stdout: Vec::new(),
            stderr: Vec::new(),
            log: Ghost(Seq::empty()),
            stdout_chunks: Ghost(Seq::empty()),
            stderr_chunks: Ghost(Seq::empty()),
        }
    }

    /// Takes a chunk read from an open pipe; it is collected if output is collected.
    pub fn record_chunk(&mut self, pipe: Pipe, chunk: Vec<u8>)
        requires
            old(self)@.wf(),
            old(self)@.pipe_open(pipe),
        ensures
            final(self)@.wf(),
            final(self)@ == (match pipe {
                Pipe::Stdout => LifecycleView {
                    stdout_chunks: old(self)@.stdout_chunks.push(chunk@),
                    stdout: if old(self)@.accumulate {
                        old(self)@.stdout + chunk@
                    } else {
                        old(self)@.stdout
                    },
                    ..old(self)@
                },
                Pipe::Stderr => LifecycleView {
                    stderr_chunks: old(self)@.stderr_chunks.push(chunk@),
                    stderr: if old(self)@.accumulate {
                        old(self)@.stderr + chunk@
                    } else {
                        old(self)@.stderr
                    },
                    ..old(self)@
                },
            }),
    {
        let ghost c = chunk@;
        let mut chunk = chunk;
        match pipe {
            Pipe::Stdout => {
                proof {
                    lemma_concat_push(self.stdout_chunks@, c);
                }
                self.stdout_chunks = Ghost(self.stdout_chunks@.push(c));
                if self.accumulate {
                    self.stdout.append(&mut chunk);
                }
            },
            Pipe::Stderr => {
                proof {
                    lemma_concat_push(self.stderr_chunks@, c);
                }
                self.stderr_chunks = Ghost(self.stderr_chunks@.push(c));
                if self.accumulate {
                    self.stderr.append(&mut chunk);
                }
            },
        }
    }

    /// The notices that become due once the child has exited and both pipes ended.
    fn finish_if_done(&mut self) -> (r: Vec<Notice>)
        requires
            old(self).closed == false,
            old(self).log@ == notices_for(old(self).outcome, false),
        ensures
            final(self).closed == (final(self).outcome is Some && !final(self).stdout_open
                && !final(self).stderr_open),
            final(self).log@ == old(self).log@ + r@,
            final(self).log@ == notices_for(final(self).outcome, final(self).closed),
            r@ == if final(self).closed {
                seq![Notice::EndStdin, Notice::Close(final(self).outcome.unwrap())]
            } else {
                Seq::empty()
            },
            final(self).outcome == old(self).outcome,
            final(self).stdout_open == old(self).stdout_open,
            final(self).stderr_open == old(self).stderr_open,
            final(self).accumulate == old(self).accumulate,
            final(self).stdout == old(self).stdout,
            final(self).stderr == old(self).stderr,
            final(self).stdout_chunks == old(self).stdout_chunks,
            final(self).stderr_chunks == old(self).stderr_chunks,
    {
        match self.outcome {
            Some(o) => {
                if !self.stdout_open && !self.stderr_open {
                    self.closed = true;
                    let r = vec![Notice::EndStdin, Notice::Close(o)];
                    self.log = Ghost(self.log@ + r@);
                    proof {
                        assert(self.log@ =~= notices_for(self.outcome, true));
                        assert(r@ =~= seq![Notice::EndStdin, Notice::Close(o)]);
                    }
                    r
                } else {
                    Vec::new()
                }
            },
            None => Vec::new(),
        }
    }

    /// Takes the end of an output pipe: its pump has copied everything.
    pub fn pipe_closed(&mut self, pipe: Pipe) -> (r: Vec<Notice>)
        requires
            old(self)@.wf(),
            old(self)@.pipe_open(pipe),
        ensures
            final(self)@.wf(),
            final(self)@.log == old(self)@.log + r@,
            r@ == if final(self)@.closed {
                seq![Notice::EndStdin, Notice::Close(old(self)@.outcome.unwrap())]
            } else {
                Seq::<Notice>::empty()
            },
            !final(self)@.pipe_open(pipe),
            final(self)@ == (LifecycleView {
                stdout_open: final(self)@.stdout_open,
                stderr_open: final(self)@.stderr_open,
                closed: final(self)@.closed,
                log: final(self)@.log,
                ..old(self)@
            }),
            pipe == Pipe::Stdout ==> final(self)@.stderr_open == old(self)@.stderr_open,
            pipe == Pipe::Stderr ==> final(self)@.stdout_open == old(self)@.stdout_open,
    {
        match pipe {
            Pipe::Stdout => self.stdout_open = false,
            Pipe::Stderr => self.stderr_open = false,
        }
        self.finish_if_done()
    }

    /// Takes the end of the child, as the supervisor recorded it.
    pub fn process_finished(&mut self, outcome: ExitOutcome) -> (r: Vec<Notice>)
        requires
            old(self)@.wf(),
            old(self)@.outcome is None,
        ensures
            final(self)@.wf(),
            final(self)@.log == old(self)@.log + r@,
            r@ == if final(self)@.closed {
                seq![Notice::Exit(outcome), Notice::EndStdin, Notice::Close(outcome)]
            } else {
                seq![Notice::Exit(outcome)]
            },
            final(self)@ == (LifecycleView {
                outcome: Some(outcome),
                closed: final(self)@.closed,
                log: final(self)@.log,
                ..old(self)@
            }),
    {
        self.outcome = Some(outcome);
        let mut r = vec![Notice::Exit(outcome)];
        self.log = Ghost(self.log@ + r@);
        proof {
            assert(self.log@ =~= notices_for(self.outcome, false));
        }
        let mut rest = self.finish_if_done();
        r.append(&mut rest);
        proof {
            assert(self.log@ =~= old(self).log@ + r@);
            if self.closed {
                assert(r@ =~= seq![Notice::Exit(outcome), Notice::EndStdin, Notice::Close(outcome)]);
            } else {
                assert(r@ =~= seq![Notice::Exit(outcome)]);
            }
        }
        r
    }

    /// The output collected from stdout.
    pub fn stdout(&self) -> (r: &Vec<u8>)
        ensures
            r@ == self@.stdout,
    {
        &self.stdout
    }

    /// The output collected from stderr.
    pub fn stderr(&self) -> (r: &Vec<u8>)
        ensures
            r@ == self@.stderr,
    {
        &self.stderr
    }
}

/// `exit` is handed out before `close`, and each of them at most once; stdin is
/// ended before `close` too.
pub proof fn lemma_exit_precedes_close(v: LifecycleView)
    requires
        v.wf(),
    ensures
        forall|i: int|
            0 <= i < v.log.len() && #[trigger] v.log[i] is Close ==> exists|j: int|
                0 <= j < i && #[trigger] v.log[j] is Exit,
        forall|i: int|
            0 <= i < v.log.len() && #[trigger] v.log[i] is Close ==> exists|j: int|
                0 <= j < i && #[trigger] v.log[j] is EndStdin,
        forall|i: int, j: int|
            0 <= i < v.log.len() && 0 <= j < v.log.len() && #[trigger] v.log[i] is Exit
                && #[trigger] v.log[j] is Exit ==> i == j,
        forall|i: int, j: int|
            0 <= i < v.log.len() && 0 <= j < v.log.len() && #[trigger] v.log[i] is Close
                && #[trigger] v.log[j] is Close ==> i == j,
{
    if v.closed {
        assert(v.log[0] is Exit);
        assert(v.log[1] is EndStdin);
    }
}

/// When `close` has been handed out, both pipes have ended, so no chunk can follow,
/// and collected output holds every byte read, in order.
pub proof fn lemma_close_after_complete_output(v: LifecycleView)
    requires
        v.wf(),
        exists|i: int| 0 <= i < v.log.len() && #[trigger] v.log[i] is Close,
    ensures
        !v.pipe_open(Pipe::Stdout),
        !v.pipe_open(Pipe::Stderr),
        v.accumulate ==> v.stdout == concat_chunks(v.stdout_chunks),
        v.accumulate ==> v.stderr == concat_chunks(v.stderr_chunks),
{
    if !v.closed {
        assert(v.log.len() <= 1);
    }
}

} // verus!
