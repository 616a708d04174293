//! The subprocess bridge: a supervisor for one long-lived command-line
//! subprocess, an ordered channel of its output lines, and a dispatcher that
//! republishes those lines to named sinks.
//!
//! The bridge itself performs no I/O. The embedding application spawns the
//! subprocess, reads its pipes, and writes to its input stream; it reports
//! each outcome to the [`CliService`] state machine, whose contracts pin down
//! every state change:
//!
//! - a successful spawn installs exactly one [`ProcessHandle`] and raises the
//!   running flag; a failed spawn changes nothing;
//! - `stop_cli` always surrenders the handle and lowers the flag, even when
//!   the kill that follows fails;
//! - each line read from the subprocess is tagged with its stream of origin
//!   and appended to the channel, whose order is never disturbed;
//! - polling consumes exactly the oldest pending line; dispatching delivers
//!   it, in arrival order, to every registered sink.

use crate::error::BridgeError;
use vstd::prelude::*;
use vstd::string::StringExecFns;

verus! {

/// The stream a line of subprocess output came from.
#[derive(Clone, Copy, PartialEq, Eq, Structural, Debug)]
pub enum StreamOrigin {
    Stdout,
    Stderr,
}

/// One line of subprocess output, tagged with its stream of origin.
#[derive(Debug)]
pub struct OutputLine {
    pub text: String,
    pub origin: StreamOrigin,
}

/// The abstract value of an [`OutputLine`].
#[verifier::ext_equal]
pub struct LineView {
    pub text: Seq<char>,
    pub origin: StreamOrigin,
}

impl View for OutputLine {
    type V = LineView;

    open spec fn view(&self) -> LineView {
        LineView { text: self.text@, origin: self.origin }
    }
}

/// Exclusive ownership of a spawned OS subprocess. The supervisor stores at
/// most one; `stop_cli` moves it out so the caller can kill the process.
/// The type is deliberately neither `Clone` nor `Copy`.
#[derive(Debug)]
pub struct ProcessHandle {
    pub pid: u64,
}

/// What came of an attempt to spawn the subprocess and capture its streams.
#[derive(Debug)]
pub enum SpawnOutcome {
    /// The process was launched and all three standard streams were piped.
    Spawned(ProcessHandle),
    /// The executable could not be launched or a stream not captured.
    SpawnError(String),
}

/// What a caller of `start_request` must do next.
#[derive(Clone, Copy, PartialEq, Eq, Structural, Debug)]
pub enum StartAction {
    /// A process is already running; starting is a successful no-op.
    AlreadyRunning,
    /// No process is held; the caller should spawn one and report the
    /// outcome through `start_apply`.
    SpawnNeeded,
}

/// A named destination for dispatched output lines, recording every line
/// delivered to it, in delivery order.
#[derive(Debug)]
pub struct Sink {
    pub name: String,
    pub delivered: Vec<OutputLine>,
}

/// The abstract value of a [`Sink`].
#[verifier::ext_equal]
pub struct SinkView {
    pub name: Seq<char>,
    pub delivered: Seq<LineView>,
}

impl View for Sink {
    type V = SinkView;

    open spec fn view(&self) -> SinkView {
        SinkView { name: self.name@, delivered: lines_view(self.delivered@) }
    }
}

/// The views of a sequence of output lines.
pub open spec fn lines_view(lines: Seq<OutputLine>) -> Seq<LineView> {
    lines.map_values(|l: OutputLine| l@)
}

/// The unbounded, ordered queue of output lines: pushed by the stream
/// readers, drained by the dispatcher or by a poll. `producers` counts the
/// readers that are still attached; `attached` records whether readers were
/// ever attached. The channel lives open from construction and closes only
/// by producer termination: once readers were attached and all have exited.
#[derive(Debug)]
pub struct OutputChannel {
    pending: Vec<OutputLine>,
    producers: usize,
    attached: bool,
}

/// The abstract value of an [`OutputChannel`].
#[verifier::ext_equal]
pub struct ChannelView {
    pub pending: Seq<LineView>,
    pub producers: nat,
    pub attached: bool,
}

impl ChannelView {
    /// Whether no more output can arrive: producers were attached at some
    /// point and every one of them has exited. A fresh channel, whose readers
    /// are yet to come, is open.
    pub open spec fn is_closed(self) -> bool {
        self.attached && self.producers == 0
    }
}

impl View for OutputChannel {
    type V = ChannelView;

    closed spec fn view(&self) -> ChannelView {
        ChannelView {
            pending: lines_view(self.pending@),
            producers: self.producers as nat,
            attached: self.attached,
        }
    }
}

impl OutputChannel {
    /// An empty, open channel with no producers attached yet.
    pub fn new() -> (c: OutputChannel)
        ensures
            c@.pending == Seq::<LineView>::empty(),
            c@.producers == 0,
            !c@.attached,
    {
        let c = OutputChannel { pending: Vec::new(), producers: 0, attached: false };
        proof {
            assert(c@.pending =~= Seq::<LineView>::empty());
        }
        c
    }

    /// Appends a line at the back of the queue; the order of everything
    /// already queued is untouched.
    pub fn push(&mut self, line: OutputLine)
        ensures
            final(self)@.pending =~= old(self)@.pending.push(line@),
            final(self)@.producers == old(self)@.producers,
            final(self)@.attached == old(self)@.attached,
    {
        self.pending.push(line);
        proof {
            assert(self@.pending =~= old(self)@.pending.push(line@));
        }
    }

    /// Attaches `n` more producers; from here on the channel can only close
    /// by their termination.
    pub fn attach_producers(&mut self, n: usize)
        requires
            old(self)@.producers + n <= usize::MAX,
        ensures
            final(self)@.producers == old(self)@.producers + n,
            final(self)@.pending == old(self)@.pending,
            final(self)@.attached,
    {
        self.producers = self.producers + n;
        self.attached = true;
    }

    /// Detaches one producer.
    pub fn detach_producer(&mut self)
        requires
            old(self)@.producers > 0,
        ensures
            final(self)@.producers == old(self)@.producers - 1,
            final(self)@.pending == old(self)@.pending,
            final(self)@.attached == old(self)@.attached,
    {
        self.producers = self.producers - 1;
    }

    /// Removes and returns the oldest pending line, or `None` when the queue
    /// is empty.
    pub fn take_next(&mut self) -> (r: Option<OutputLine>)
        ensures
            final(self)@.producers == old(self)@.producers,
            final(self)@.attached == old(self)@.attached,
            old(self)@.pending.len() > 0 ==> {
                &&& r is Some
                &&& r->0@ == old(self)@.pending[0]
                &&& final(self)@.pending =~= old(self)@.pending.drop_first()
            },
            old(self)@.pending.len() == 0 ==> r is None && final(self)@.pending == old(
                self,
            )@.pending,
    {
        if self.pending.len() == 0 {
            None
        } else {
            let line = self.pending.remove(0);
            proof {
                assert(self@.pending =~= old(self)@.pending.drop_first());
            }
            Some(line)
        }
    }

    /// The number of pending lines.
    pub fn len(&self) -> (n: usize)
        ensures
            n == self@.pending.len(),
    {
        self.pending.len()
    }

    /// The number of attached producers.
    pub fn producer_count(&self) -> (n: usize)
        ensures
            n == self@.producers,
    {
        self.producers
    }

    /// Whether the channel is closed: producers were attached at some point
    /// and all of them have exited.
    pub fn is_closed(&self) -> (r: bool)
        ensures
            r == self@.is_closed(),
    {
        self.attached && self.producers == 0
    }
}

/// The abstract state of the whole bridge.
#[verifier::ext_equal]
pub struct BridgeView {
    pub process: Option<ProcessHandle>,
    pub running: bool,
    pub channel: ChannelView,
    pub sinks: Seq<SinkView>,
}

impl BridgeView {
    /// The bridge invariant: the running flag is raised exactly while a
    /// process handle is held.
    pub open spec fn wf(self) -> bool {
        self.running <==> self.process is Some
    }

    /// The state after a successful start: the fresh handle is stored, the
    /// running flag raised, and the two stream readers attached as producers.
    pub open spec fn after_start_ok(self, h: ProcessHandle) -> BridgeView {
        BridgeView {
            process: Some(h),
            running: true,
            channel: ChannelView {
                producers: self.channel.producers + 2,
                attached: true,
                ..self.channel
            },
            ..self
        }
    }

    /// The state after a stop: no handle, flag lowered, everything else --
    /// including lines still pending and readers still draining the old
    /// pipes -- untouched.
    pub open spec fn after_stop(self) -> BridgeView {
        BridgeView { process: None, running: false, ..self }
    }

    /// The state after a reader queued one line.
    pub open spec fn after_push(self, line: LineView) -> BridgeView {
        BridgeView {
            channel: ChannelView { pending: self.channel.pending.push(line), ..self.channel },
            ..self
        }
    }

    /// The state after one reader exited.
    pub open spec fn after_reader_exit(self) -> BridgeView {
        BridgeView {
            channel: ChannelView {
                producers: (self.channel.producers - 1) as nat,
                ..self.channel
            },
            ..self
        }
    }

    /// The state after a poll: the oldest pending line is consumed; an empty
    /// channel is left as it is.
    pub open spec fn after_poll(self) -> BridgeView {
        if self.channel.pending.len() > 0 {
            BridgeView {
                channel: ChannelView {
                    pending: self.channel.pending.drop_first(),
                    ..self.channel
                },
                ..self
            }
        } else {
            self
        }
    }

    /// The state after registering a sink: a fresh sink that has received
    /// nothing yet, appended to the registry.
    pub open spec fn after_listen(self, name: Seq<char>) -> BridgeView {
        BridgeView {
            sinks: self.sinks.push(SinkView { name, delivered: Seq::empty() }),
            ..self
        }
    }

    /// The state after one dispatch step: the oldest pending line is consumed
    /// and delivered to every registered sink; an empty channel is left as it
    /// is.
    pub open spec fn after_dispatch(self) -> BridgeView {
        if self.channel.pending.len() > 0 {
            let line = self.channel.pending[0];
            BridgeView {
                channel: ChannelView {
                    pending: self.channel.pending.drop_first(),
                    ..self.channel
                },
                sinks: Seq::new(
                    self.sinks.len(),
                    |i: int|
                        SinkView {
                            name: self.sinks[i].name,
                            delivered: self.sinks[i].delivered.push(line),
                        },
                ),
                ..self
            }
        } else {
            self
        }
    }
}

/// The subprocess bridge: supervisor, output channel, and sink registry.
pub struct CliService {
    process: Option<ProcessHandle>,
    running: bool,
    channel: OutputChannel,
    sinks: Vec<Sink>,
}

impl View for CliService {
    type V = BridgeView;

    closed spec fn view(&self) -> BridgeView {
        BridgeView {
            process: self.process,
            running: self.running,
            channel: self.channel@,
            sinks: self.sinks@.map_values(|s: Sink| s@),
        }
    }
}

impl CliService {
    /// A fresh bridge: no process, not running, empty channel, no sinks.
    pub fn new() -> (s: CliService)
        ensures
            s@.wf(),
            s@.process is None,
            !s@.running,
            s@.channel.pending == Seq::<LineView>::empty(),
            s@.channel.producers == 0,
            !s@.channel.attached,
            s@.sinks == Seq::<SinkView>::empty(),
    {
        let s = CliService {
            process: None,
            running: false,
            channel: OutputChannel::new(),
            sinks: Vec::new(),
        };
        proof {
            assert(s@.sinks =~= Seq::<SinkView>::empty());
        }
        s
    }

    /// A non-blocking read of the running flag.
    pub fn is_cli_running(&self) -> (r: bool)
        ensures
            r == self@.running,
    {
        self.running
    }

    /// Decides the first phase of a start: starting while a process is
    /// already running is a successful no-op, otherwise a spawn is needed.
    pub fn start_request(&self) -> (a: StartAction)
        ensures
            a is SpawnNeeded <==> !self@.running,
    {
        if self.running {
            StartAction::AlreadyRunning
        } else {
            StartAction::SpawnNeeded
        }
    }

    /// Applies the outcome of the spawn that `start_request` asked for. On
    /// success the handle is stored, the running flag raised, and the two
    /// stream readers counted as channel producers; on failure nothing
    /// changes and the error is reported, so a later start is a fresh
    /// attempt.
    pub fn start_apply(&mut self, outcome: SpawnOutcome) -> (r: Result<(), BridgeError>)
        requires
            old(self)@.wf(),
            !old(self)@.running,
            old(self)@.channel.producers + 2 <= usize::MAX,
        ensures
            final(self)@.wf(),
            match outcome {
                SpawnOutcome::Spawned(h) => r is Ok && final(self)@ == old(self)@.after_start_ok(
                    h,
                ),
                SpawnOutcome::SpawnError(m) => r == Err::<(), BridgeError>(
                    BridgeError::SpawnFailure(m),
                ) && final(self)@ == old(self)@,
            },
    {
        match outcome {
            SpawnOutcome::Spawned(h) => {
                self.process = Some(h);
                self.running = true;
                self.channel.attach_producers(2);
                proof {
                    assert(self@ =~~= old(self)@.after_start_ok(self@.process->0));
                }
                Ok(())
            },
            SpawnOutcome::SpawnError(m) => {
                proof {
                    assert(self@ =~~= old(self)@);
                }
                Err(BridgeError::SpawnFailure(m))
            },
        }
    }

    /// Stops the subprocess: the handle, if any, is surrendered to the caller
    /// (who kills the OS process and merely logs a kill failure) and the
    /// running flag is lowered. Always succeeds; with no process held it is a
    /// no-op that returns `None`.
    pub fn stop_cli(&mut self) -> (h: Option<ProcessHandle>)
        requires
            old(self)@.wf(),
        ensures
            final(self)@.wf(),
            final(self)@ == old(self)@.after_stop(),
            h == old(self)@.process,
    {
        let h = self.process.take();
        self.running = false;
        proof {
            assert(self@ =~~= old(self)@.after_stop());
        }
        h
    }

    /// Serializes an outbound message for the subprocess: fails with
    /// `NotRunning` when no process is held (and then nothing is written);
    /// otherwise yields exactly the message with a single newline terminator
    /// appended, for the caller to write and flush.
    pub fn send_message(&self, message: &str) -> (r: Result<String, BridgeError>)
        requires
            self@.wf(),
        ensures
            self@.running ==> r is Ok && r->Ok_0@ == message@ + seq!['\n'],
            !self@.running ==> r == Err::<String, BridgeError>(BridgeError::NotRunning),
    {
        if !self.running {
            Err(BridgeError::NotRunning)
        } else {
            let mut payload = String::new();
            payload.append(message);
            payload.append("\n");
            proof {
                reveal_strlit("\n");
                assert(payload@ =~= message@ + seq!['\n']);
            }
            Ok(payload)
        }
    }

    /// Queues one line read from the subprocess's stdout. Only a live reader
    /// calls this, so at least one producer must be attached.
    pub fn push_stdout(&mut self, text: String)
        requires
            old(self)@.wf(),
            old(self)@.channel.producers > 0,
        ensures
            final(self)@.wf(),
            final(self)@ == old(self)@.after_push(
                LineView { text: text@, origin: StreamOrigin::Stdout },
            ),
    {
        let line = OutputLine { text, origin: StreamOrigin::Stdout };
        let ghost lv = line@;
        self.channel.push(line);
        proof {
            assert(self@ =~~= old(self)@.after_push(lv));
        }
    }

    /// Queues one line read from the subprocess's stderr, tagged as such so
    /// that sinks can tell the two streams apart.
    pub fn push_stderr(&mut self, text: String)
        requires
            old(self)@.wf(),
            old(self)@.channel.producers > 0,
        ensures
            final(self)@.wf(),
            final(self)@ == old(self)@.after_push(
                LineView { text: text@, origin: StreamOrigin::Stderr },
            ),
    {
        let line = OutputLine { text, origin: StreamOrigin::Stderr };
        let ghost lv = line@;
        self.channel.push(line);
        proof {
            assert(self@ =~~= old(self)@.after_push(lv));
        }
    }

    /// Records that one stream reader reached end-of-stream or a read error
    /// and exited. Reader exit is a signal, not a verdict, on liveness: the
    /// running flag is not touched.
    pub fn reader_exited(&mut self)
        requires
            old(self)@.wf(),
            old(self)@.channel.producers > 0,
        ensures
            final(self)@.wf(),
            final(self)@ == old(self)@.after_reader_exit(),
    {
        self.channel.detach_producer();
        proof {
            assert(self@ =~~= old(self)@.after_reader_exit());
        }
    }

    /// One-shot retrieval of the next output line, as used when a bounded
    /// wait expires: the oldest pending line if there is one; `Timeout` on an
    /// empty channel that is still open (its readers not yet attached, or
    /// some still alive); `ChannelClosed` on an empty channel whose attached
    /// producers have all exited, so that no more output will arrive.
    pub fn poll_output(&mut self) -> (r: Result<OutputLine, BridgeError>)
        requires
            old(self)@.wf(),
        ensures
            final(self)@.wf(),
            final(self)@ == old(self)@.after_poll(),
            old(self)@.channel.pending.len() > 0 ==> r is Ok && r->Ok_0@ == old(
                self,
            )@.channel.pending[0],
            old(self)@.channel.pending.len() == 0 && !old(self)@.channel.is_closed() ==> r
                == Err::<OutputLine, BridgeError>(BridgeError::Timeout),
            old(self)@.channel.pending.len() == 0 && old(self)@.channel.is_closed() ==> r
                == Err::<OutputLine, BridgeError>(BridgeError::ChannelClosed),
    {
        match self.channel.take_next() {
            Some(line) => {
                proof {
                    assert(self@ =~~= old(self)@.after_poll());
                }
                Ok(line)
            },
            None => {
                proof {
                    assert(self@ =~~= old(self)@.after_poll());
                }
                if self.channel.is_closed() {
                    Err(BridgeError::ChannelClosed)
                } else {
                    Err(BridgeError::Timeout)
                }
            },
        }
    }

    /// Registers a named sink. Every sink receives all lines dispatched after
    /// its registration; several sinks, even under one name, all receive
    /// them.
    pub fn listen_to_output(&mut self, sink_name: String)
        requires
            old(self)@.wf(),
        ensures
            final(self)@.wf(),
            final(self)@ == old(self)@.after_listen(sink_name@),
    {
        let ghost name = sink_name@;
        self.sinks.push(Sink { name: sink_name, delivered: Vec::new() });
        proof {
            assert(self@.sinks =~~= old(self)@.sinks.push(
                SinkView { name, delivered: Seq::empty() },
            ));
            assert(self@ =~~= old(self)@.after_listen(name));
        }
    }

    /// One dispatcher step: consumes the oldest pending line and delivers a
    /// copy to every registered sink, preserving arrival order. Returns
    /// whether a line was dispatched.
    pub fn dispatch_next(&mut self) -> (dispatched: bool)
        requires
            old(self)@.wf(),
        ensures
            final(self)@.wf(),
            dispatched == (old(self)@.channel.pending.len() > 0),
            final(self)@ == old(self)@.after_dispatch(),
    {
        match self.channel.take_next() {
            None => {
                proof {
                    assert(self@ =~~= old(self)@.after_dispatch());
                }
                false
            },
            Some(line) => {
                let ghost lv = line@;
                let ghost sinks0 = old(self)@.sinks;
                let n = self.sinks.len();
                let mut updated: Vec<Sink> = Vec::new();
                while updated.len() < n
                    invariant
                        updated.len() + self.sinks.len() == n,
                        self.process == old(self).process,
                        self.running == old(self).running,
                        self.channel@ == (ChannelView {
                            pending: old(self)@.channel.pending.drop_first(),
                            producers: old(self)@.channel.producers,
                            attached: old(self)@.channel.attached,
                        }),
                        line@ == lv,
                        sinks0 == old(self)@.sinks,
                        sinks0.len() == n,
                        forall|j: int|
                            0 <= j < updated.len() ==> (#[trigger] updated@[j])@ == (SinkView {
                                name: sinks0[j].name,
                                delivered: sinks0[j].delivered.push(lv),
                            }),
                        forall|j: int|
                            0 <= j < self.sinks.len() ==> (#[trigger] self.sinks@[j])@ == sinks0[j
                                + updated.len()],
                    decreases n - updated.len(),
                {
                    let mut sink = self.sinks.remove(0);
                    let ghost k = updated.len() as int;
                    let copy = OutputLine { text: line.text.clone(), origin: line.origin };
                    sink.delivered.push(copy);
                    proof {
                        assert(sink@.delivered =~~= sinks0[k].delivered.push(lv));
                    }
                    updated.push(sink);
                }
                self.sinks = updated;
                proof {
                    let target = old(self)@.after_dispatch();
                    assert(self@.sinks.len() == target.sinks.len());
                    assert(forall|j: int|
                        0 <= j < n ==> self@.sinks[j] =~= (#[trigger] target.sinks[j]));
                    assert(self@ =~~= target);
                }
                true
            },
        }
    }

    /// The number of pending, not yet consumed, output lines.
    pub fn pending_len(&self) -> (r: usize)
        ensures
            r == self@.channel.pending.len(),
    {
        self.channel.len()
    }

    /// The number of stream readers still attached to the channel.
    pub fn producer_count(&self) -> (r: usize)
        ensures
            r == self@.channel.producers,
    {
        self.channel.producer_count()
    }

    /// The number of registered sinks.
    pub fn sink_count(&self) -> (r: usize)
        ensures
            r == self@.sinks.len(),
    {
        self.sinks.len()
    }

    /// A view of the sink at the given index, for inspection by the
    /// application's event layer.
    pub fn sink_at(&self, i: usize) -> (s: &Sink)
        requires
            i < self@.sinks.len(),
        ensures
            s@ == self@.sinks[i as int],
    {
        &self.sinks[i]
    }
}

impl Default for CliService {
    /// The same fresh bridge that [`CliService::new`] builds.
    fn default() -> (s: CliService)
        ensures
            s@.wf(),
            s@.process is None,
            !s@.running,
            s@.channel.pending == Seq::<LineView>::empty(),
            s@.channel.producers == 0,
            !s@.channel.attached,
            s@.sinks == Seq::<SinkView>::empty(),
    {
        CliService::new()
    }
}

} // verus!
