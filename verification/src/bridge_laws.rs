//! Laws of the subprocess bridge, stated over [`BridgeView`] and the
//! transitions that the methods of [`crate::bridge::CliService`] promise in
//! their contracts.
//!
//! [`BridgeOp`] names one abstract step each method can take; [`apply_op`]
//! is the corresponding state change, guarded exactly as the methods guard
//! themselves (a start while running is a no-op, a reader can only push or
//! exit while attached). The proof functions below then hold over every
//! sequence of such steps.

use crate::bridge::{BridgeView, LineView, ProcessHandle, StreamOrigin};
use vstd::prelude::*;

verus! {

/// One abstract step of the bridge.
pub enum BridgeOp {
    /// A start whose spawn succeeded, yielding this handle.
    StartOk(ProcessHandle),
    /// A start whose spawn failed.
    StartFail,
    /// An explicit stop.
    Stop,
    /// A reader queued one line from the subprocess's stdout.
    PushStdout(Seq<char>),
    /// A reader queued one line from the subprocess's stderr.
    PushStderr(Seq<char>),
    /// One reader exited.
    ReaderExit,
    /// A one-shot poll consumed the oldest pending line, if any.
    Poll,
    /// A sink was registered under this name.
    Listen(Seq<char>),
    /// The dispatcher delivered the oldest pending line, if any, to every
    /// registered sink.
    Dispatch,
}

/// The state reached by taking one step from `s`. A start while a process is
/// already running is a successful no-op; pushes and exits of readers apply
/// only while a producer is attached.
pub open spec fn apply_op(s: BridgeView, op: BridgeOp) -> BridgeView {
    match op {
        BridgeOp::StartOk(h) => if !s.running {
            s.after_start_ok(h)
        } else {
            s
        },
        BridgeOp::StartFail => s,
        BridgeOp::Stop => s.after_stop(),
        BridgeOp::PushStdout(text) => if s.channel.producers > 0 {
            s.after_push(LineView { text, origin: StreamOrigin::Stdout })
        } else {
            s
        },
        BridgeOp::PushStderr(text) => if s.channel.producers > 0 {
            s.after_push(LineView { text, origin: StreamOrigin::Stderr })
        } else {
            s
        },
        BridgeOp::ReaderExit => if s.channel.producers > 0 {
            s.after_reader_exit()
        } else {
            s
        },
        BridgeOp::Poll => s.after_poll(),
        BridgeOp::Listen(name) => s.after_listen(name),
        BridgeOp::Dispatch => s.after_dispatch(),
    }
}

/// The state reached by taking the steps of `ops` in order, starting at `s`.
pub open spec fn apply_ops(s: BridgeView, ops: Seq<BridgeOp>) -> BridgeView
    decreases ops.len(),
{
    if ops.len() == 0 {
        s
    } else {
        apply_ops(apply_op(s, ops[0]), ops.drop_first())
    }
}

/// The number of process handles the bridge holds.
pub open spec fn live_handles(s: BridgeView) -> nat {
    if s.process is Some {
        1
    } else {
        0
    }
}

/// Every single step preserves the bridge invariant.
pub proof fn lemma_step_preserves_wf(s: BridgeView, op: BridgeOp)
    requires
        s.wf(),
    ensures
        apply_op(s, op).wf(),
{
}

/// Law: however the bridge is driven -- through any sequence of starts,
/// stops, pushes, polls, listens and dispatches -- it holds at most one
/// process handle at every instant, and the handle is held exactly while the
/// running flag is raised. In particular a start cannot double-spawn (while
/// running it is a no-op) and a stop cannot leak the handle (it always clears
/// it).
pub proof fn lemma_at_most_one_handle(s: BridgeView, ops: Seq<BridgeOp>)
    requires
        s.wf(),
    ensures
        apply_ops(s, ops).wf(),
        live_handles(apply_ops(s, ops)) <= 1,
    decreases ops.len(),
{
    if ops.len() > 0 {
        lemma_step_preserves_wf(s, ops[0]);
        lemma_at_most_one_handle(apply_op(s, ops[0]), ops.drop_first());
    }
}

/// Law: after a successful start, the bridge reports running until a stop:
/// no other step -- a failed start, output arriving, readers exiting, polls,
/// listens, dispatches -- lowers the flag.
pub proof fn lemma_running_until_stop(s: BridgeView, ops: Seq<BridgeOp>)
    requires
        s.running,
        forall|i: int| 0 <= i < ops.len() ==> !((#[trigger] ops[i]) is Stop),
    ensures
        apply_ops(s, ops).running,
    decreases ops.len(),
{
    if ops.len() > 0 {
        assert(!(ops[0] is Stop));
        assert(apply_op(s, ops[0]).running);
        assert(forall|i: int|
            0 <= i < ops.drop_first().len() ==> !((#[trigger] ops.drop_first()[i]) is Stop));
        lemma_running_until_stop(apply_op(s, ops[0]), ops.drop_first());
    }
}

/// Law: a restart -- a stop followed by a start whose spawn succeeded --
/// always leaves the bridge running, with the fresh handle installed,
/// whatever state it was in before (even one whose process had hung).
pub proof fn lemma_restart_leaves_running(s: BridgeView, h: ProcessHandle)
    requires
        s.wf(),
    ensures
        apply_ops(s, seq![BridgeOp::Stop, BridgeOp::StartOk(h)]).wf(),
        apply_ops(s, seq![BridgeOp::Stop, BridgeOp::StartOk(h)]).running,
        apply_ops(s, seq![BridgeOp::Stop, BridgeOp::StartOk(h)]).process == Some(h),
{
    let ops = seq![BridgeOp::Stop, BridgeOp::StartOk(h)];
    let s1 = apply_op(s, BridgeOp::Stop);
    let rest = ops.drop_first();
    assert(ops[0] == BridgeOp::Stop);
    assert(apply_ops(s, ops) == apply_ops(s1, rest));
    assert(rest[0] == BridgeOp::StartOk(h));
    assert(rest.drop_first().len() == 0);
    let s2 = apply_op(s1, BridgeOp::StartOk(h));
    assert(apply_ops(s1, rest) == apply_ops(s2, rest.drop_first()));
    assert(apply_ops(s2, rest.drop_first()) == s2);
}

/// The state after `n` dispatcher steps.
pub open spec fn dispatch_n(s: BridgeView, n: int) -> BridgeView
    decreases n,
{
    if n <= 0 {
        s
    } else {
        dispatch_n(s, n - 1).after_dispatch()
    }
}

/// Law: dispatching `n` times consumes exactly the `n` oldest pending lines
/// -- each exactly once -- and appends exactly those lines, in their arrival
/// order and with their origin tags intact, to what every registered sink had
/// already received. Lines a sink owes its registration to (all lines pending
/// at or after it) therefore reach it exactly once, in order.
pub proof fn lemma_dispatch_delivers_in_order(s: BridgeView, n: int)
    requires
        0 <= n <= s.channel.pending.len(),
    ensures
        dispatch_n(s, n).process == s.process,
        dispatch_n(s, n).running == s.running,
        dispatch_n(s, n).channel.producers == s.channel.producers,
        dispatch_n(s, n).channel.pending =~= s.channel.pending.skip(n),
        dispatch_n(s, n).sinks.len() == s.sinks.len(),
        forall|i: int|
            0 <= i < s.sinks.len() ==> (#[trigger] dispatch_n(s, n).sinks[i]).name
                == s.sinks[i].name,
        forall|i: int|
            0 <= i < s.sinks.len() ==> (#[trigger] dispatch_n(s, n).sinks[i]).delivered
                =~= s.sinks[i].delivered + s.channel.pending.take(n),
    decreases n,
{
    if n == 0 {
        assert(s.channel.pending.skip(0) =~= s.channel.pending);
        assert forall|i: int| 0 <= i < s.sinks.len() implies (#[trigger] dispatch_n(
            s,
            0,
        ).sinks[i]).delivered =~= s.sinks[i].delivered + s.channel.pending.take(0) by {
            assert(s.channel.pending.take(0) =~= Seq::<LineView>::empty());
            assert(s.sinks[i].delivered + s.channel.pending.take(0) =~= s.sinks[i].delivered);
        }
    } else {
        lemma_dispatch_delivers_in_order(s, n - 1);
        let t = dispatch_n(s, n - 1);
        lemma_dispatch_step(s, t, n);
    }
}

/// One dispatcher step on top of `n - 1` already proved.
proof fn lemma_dispatch_step(s: BridgeView, t: BridgeView, n: int)
    requires
        0 < n <= s.channel.pending.len(),
        t == dispatch_n(s, n - 1),
        t.channel.pending =~= s.channel.pending.skip(n - 1),
        t.sinks.len() == s.sinks.len(),
        forall|i: int|
            0 <= i < s.sinks.len() ==> (#[trigger] t.sinks[i]).name == s.sinks[i].name,
        forall|i: int|
            0 <= i < s.sinks.len() ==> (#[trigger] t.sinks[i]).delivered =~= s.sinks[i].delivered
                + s.channel.pending.take(n - 1),
    ensures
        dispatch_n(s, n).channel.pending =~= s.channel.pending.skip(n),
        dispatch_n(s, n).sinks.len() == s.sinks.len(),
        forall|i: int|
            0 <= i < s.sinks.len() ==> (#[trigger] dispatch_n(s, n).sinks[i]).name
                == s.sinks[i].name,
        forall|i: int|
            0 <= i < s.sinks.len() ==> (#[trigger] dispatch_n(s, n).sinks[i]).delivered
                =~= s.sinks[i].delivered + s.channel.pending.take(n),
{
    assert(t.channel.pending.len() > 0);
    assert(t.channel.pending[0] == s.channel.pending[n - 1]);
    assert(dispatch_n(s, n).channel.pending =~= s.channel.pending.skip(n)) by {
        assert(t.channel.pending.drop_first() =~= s.channel.pending.skip(n));
    }
    assert forall|i: int| 0 <= i < s.sinks.len() implies (#[trigger] dispatch_n(
        s,
        n,
    ).sinks[i]).delivered =~= s.sinks[i].delivered + s.channel.pending.take(n) by {
        assert(dispatch_n(s, n).sinks[i].delivered =~= t.sinks[i].delivered.push(
            s.channel.pending[n - 1],
        ));
        assert(s.channel.pending.take(n) =~= s.channel.pending.take(n - 1).push(
            s.channel.pending[n - 1],
        ));
    }
}

/// Law: a dispatched line reaches each sink exactly as it was queued --
/// text and stream tag together -- so stderr lines stay distinguishable from
/// stdout lines at every sink: the `j`-th of the `n` dispatched lines becomes
/// the `j`-th new entry of each sink's deliveries, unchanged.
pub proof fn lemma_origin_tags_reach_sinks(s: BridgeView, n: int, i: int, j: int)
    requires
        0 <= n <= s.channel.pending.len(),
        0 <= i < s.sinks.len(),
        0 <= j < n,
    ensures
        dispatch_n(s, n).sinks[i].delivered.len() == s.sinks[i].delivered.len() + n,
        dispatch_n(s, n).sinks[i].delivered[s.sinks[i].delivered.len() + j] == s.channel.pending[j],
{
    lemma_dispatch_delivers_in_order(s, n);
    assert(dispatch_n(s, n).sinks[i].delivered =~= s.sinks[i].delivered + s.channel.pending.take(
        n,
    ));
    assert(s.channel.pending.take(n)[j] == s.channel.pending[j]);
}

} // verus!
