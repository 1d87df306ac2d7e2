//! Histories of a channel: what every sequence of sends, receives and
//! closes leaves behind, and what no such sequence can do.

use vstd::prelude::*;
use super::channel::after_close;
use super::channel::after_send;
use super::channel::after_take;
use super::channel::close_poll;
use super::channel::initial_state;
use super::channel::recv_poll;
use super::channel::recv_start;
use super::channel::state_wf;
use super::channel::ChannelConfig;
use super::channel::ChannelState;

verus! {

/// One operation on a channel. A receive or a close that waits is one such
/// operation for each look it takes.
pub enum Op<T> {
    /// The producer sends a value.
    Send(T),
    /// The consumer looks for a value.
    Recv,
    /// The producer looks for the acknowledgment, to close.
    Close,
}

/// The slot after one operation.
pub open spec fn after_op<T>(s: ChannelState<T>, op: Op<T>) -> ChannelState<T> {
    match op {
        Op::Send(v) => after_send(s, v),
        Op::Recv => if !s.closed && s.changed {
            after_take(s)
        } else {
            s
        },
        Op::Close => if s.ack {
            after_close(s)
        } else {
            s
        },
    }
}

/// What has happened on a channel.
pub struct History<T> {
    /// The slot as it stands.
    pub state: ChannelState<T>,
    /// The seed, and after it every value that a send has put in the slot,
    /// in order.
    pub sent: Seq<T>,
    /// Every value that was handed to the consumer, in order.
    pub taken: Seq<T>,
    /// For each value handed to the consumer, its place in `sent`.
    pub taken_at: Seq<int>,
}

/// The history of a fresh channel.
pub open spec fn begin<T>(init: T) -> History<T> {
    History {
        state: initial_state(init),
        sent: seq![init],
        taken: Seq::empty(),
        taken_at: Seq::empty(),
    }
}

/// A history with one more operation.
pub open spec fn extend<T>(h: History<T>, op: Op<T>) -> History<T> {
    match op {
        Op::Send(v) => if h.state.closed {
            h
        } else {
            History { state: after_op(h.state, op), sent: h.sent.push(v), ..h }
        },
        Op::Recv => if !h.state.closed && h.state.changed {
            History {
                state: after_op(h.state, op),
                taken: h.taken.push(h.state.value),
                taken_at: h.taken_at.push(h.sent.len() - 1),
                ..h
            }
        } else {
            h
        },
        Op::Close => History { state: after_op(h.state, op), ..h },
    }
}

/// The history of a channel seeded with `init` after these operations.
pub open spec fn history<T>(init: T, ops: Seq<Op<T>>) -> History<T>
    decreases ops.len(),
{
    if ops.len() == 0 {
        begin(init)
    } else {
        extend(history(init, ops.drop_last()), ops.last())
    }
}

/// The slot after these operations on a channel seeded with `init`.
pub open spec fn after_ops<T>(init: T, ops: Seq<Op<T>>) -> ChannelState<T>
    decreases ops.len(),
{
    if ops.len() == 0 {
        initial_state(init)
    } else {
        after_op(after_ops(init, ops.drop_last()), ops.last())
    }
}

/// The books of a history agree with its slot.
pub open spec fn coherent<T>(h: History<T>) -> bool {
    &&& state_wf(h.state)
    &&& h.sent.len() >= 1
    &&& h.state.value == h.sent.last()
    &&& h.taken.len() == h.taken_at.len()
    &&& forall|i: int|
        0 <= i < h.taken_at.len() ==> 0 <= #[trigger] h.taken_at[i] < h.sent.len() && h.taken[i]
            == h.sent[h.taken_at[i]]
    &&& forall|i: int, j: int|
        0 <= i < j < h.taken_at.len() ==> h.taken_at[i] < h.taken_at[j]
    &&& (h.state.changed <==> (h.taken_at.len() == 0 || h.taken_at.last() < h.sent.len() - 1))
}

proof fn lemma_extend_coherent<T>(h: History<T>, op: Op<T>)
    requires
        coherent(h),
    ensures
        coherent(extend(h, op)),
{
    let g = extend(h, op);
    match op {
        Op::Send(v) => {},
        Op::Recv => {
            if !h.state.closed && h.state.changed {
                assert forall|i: int, j: int| 0 <= i < j < g.taken_at.len() implies g.taken_at[i]
                    < g.taken_at[j] by {
                    if j == h.taken_at.len() {
                        assert(h.taken_at[i] <= h.taken_at.last());
                    }
                }
            }
        },
        Op::Close => {},
    }
}

/// The steps of the channel's operations are these operations: a receive,
/// begun or resumed, and a close leave the slot as `after_op` says, at
/// whatever time and with whatever waiting parameters.
pub proof fn lemma_steps_are_ops<T: PartialEq + Copy>(
    s: ChannelState<T>,
    config: ChannelConfig,
    waited_ms: u64,
)
    requires
        state_wf(s),
    ensures
        recv_start(s, config).0 == after_op(s, Op::Recv),
        recv_poll(s, config, waited_ms).0 == after_op(s, Op::Recv),
        close_poll(s, config, waited_ms).0 == after_op(s, Op::Close),
{
}

/// Whatever is done to a channel, in whatever order:
/// the slot is in one of its three phases and holds the last value sent;
/// the consumer was handed values that were sent, in the order in which
/// they were sent, and none of them twice;
/// and a channel that is closed was closed after the consumer took the
/// last value ever sent.
pub proof fn lemma_history<T>(init: T, ops: Seq<Op<T>>)
    ensures
        coherent(history(init, ops)),
        history(init, ops).state == after_ops(init, ops),
        state_wf(after_ops(init, ops)),
        after_ops(init, ops).value == history(init, ops).sent.last(),
        forall|i: int, j: int|
            0 <= i < j < history(init, ops).taken.len() ==> history(init, ops).taken_at[i]
                < history(init, ops).taken_at[j],
        forall|i: int|
            0 <= i < history(init, ops).taken.len() ==> history(init, ops).taken[i] == history(
                init,
                ops,
            ).sent[#[trigger] history(init, ops).taken_at[i]],
        after_ops(init, ops).closed ==> history(init, ops).taken.len() > 0 && history(
            init,
            ops,
        ).taken.last() == history(init, ops).sent.last(),
    decreases ops.len(),
{
    if ops.len() > 0 {
        lemma_history(init, ops.drop_last());
        lemma_extend_coherent(history(init, ops.drop_last()), ops.last());
    }
}

/// Once closed, always closed: whatever follows a history that closed the
/// channel, the slot stays as the close left it, and the consumer is
/// handed nothing more.
pub proof fn lemma_closed_forever<T>(init: T, ops: Seq<Op<T>>, more: Seq<Op<T>>)
    requires
        after_ops(init, ops).closed,
    ensures
        after_ops(init, ops + more) == after_ops(init, ops),
        history(init, ops + more) == history(init, ops),
    decreases more.len(),
{
    lemma_history(init, ops);
    if more.len() == 0 {
        assert(ops + more =~= ops);
    } else {
        lemma_closed_forever(init, ops, more.drop_last());
        assert((ops + more).drop_last() =~= ops + more.drop_last());
        assert((ops + more).last() == more.last());
        lemma_history(init, ops + more.drop_last());
    }
}

/// The operations of a producer and a consumer in lockstep: each value is
/// sent and then taken before the next one is sent.
pub open spec fn lockstep<T>(values: Seq<T>) -> Seq<Op<T>>
    decreases values.len(),
{
    if values.len() == 0 {
        Seq::empty()
    } else {
        lockstep(values.drop_last()).push(Op::Send(values.last())).push(Op::Recv)
    }
}

/// In lockstep nothing is lost: the consumer is handed exactly the values
/// that were sent, in their order, whatever the seed; the last of them is
/// acknowledged, so that a close then goes through at its first look.
pub proof fn lemma_lockstep_delivers_all<T>(init: T, values: Seq<T>)
    ensures
        history(init, lockstep(values)).taken == values,
        !after_ops(init, lockstep(values)).closed,
        values.len() > 0 ==> after_ops(init, lockstep(values)).ack,
        values.len() > 0 ==> after_ops(init, lockstep(values).push(Op::Close)).closed,
        values.len() > 0 ==> history(init, lockstep(values).push(Op::Close)).taken == values,
    decreases values.len(),
{
    let ops = lockstep(values);
    lemma_history(init, ops);
    if values.len() > 0 {
        let before = lockstep(values.drop_last());
        let sent = before.push(Op::Send(values.last()));
        lemma_lockstep_delivers_all(init, values.drop_last());
        lemma_history(init, before);
        lemma_history(init, sent);
        assert(sent.drop_last() =~= before);
        assert(ops.drop_last() =~= sent);
        assert(history(init, sent) == extend(history(init, before), Op::Send(values.last())));
        assert(history(init, ops) == extend(history(init, sent), Op::Recv));
        assert(history(init, ops).taken =~= values);
        assert(ops.push(Op::Close).drop_last() =~= ops);
    } else {
        assert(history(init, ops).taken =~= values);
    }
}

} // verus!
