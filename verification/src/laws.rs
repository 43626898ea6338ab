//! The bridge's guarantees, stated and proved over the model of the shared
//! runtime state. Each law speaks of the same transition functions that the
//! executable operations are proved to implement.

use crate::runtime::{
    spec_complete, spec_drain, spec_enqueue, spec_receive, spec_reset, spec_send,
    spec_take_result, ChannelWaitOutcome, StateModel, TaskRequest, TaskResult, TaskResultValue,
    WaiterState,
};
use vstd::prelude::*;

verus! {

/// The state and the ids produced by a whole sequence of enqueues, in order.
pub open spec fn spec_enqueue_all(m: StateModel, requests: Seq<TaskRequest>) -> (StateModel, Seq<
    u64,
>)
    decreases requests.len(),
{
    if requests.len() == 0 {
        (m, Seq::<u64>::empty())
    } else {
        let (m1, id) = spec_enqueue(m, requests[0].target, requests[0].args);
        let (m2, ids) = spec_enqueue_all(m1, requests.drop_first());
        (m2, seq![id] + ids)
    }
}

/// For every sequence of enqueues within one generation, the ids handed out
/// are consecutive from the allocator's current value — after a reset: 0, 1,
/// 2, … — hence strictly increasing and never repeating until the next reset,
/// and every intermediate state stays well formed.
pub proof fn lemma_enqueue_ids_strictly_increase(m: StateModel, requests: Seq<TaskRequest>)
    requires
        m.wf(),
        m.next_id + requests.len() <= u64::MAX,
    ensures
        ({
            let (mn, ids) = spec_enqueue_all(m, requests);
            &&& ids.len() == requests.len()
            &&& forall|i: int| 0 <= i < ids.len() ==> ids[i] == m.next_id + i
            &&& forall|i: int, j: int| 0 <= i < j < ids.len() ==> ids[i] < ids[j]
            &&& mn.wf()
            &&& mn.next_id == m.next_id + requests.len()
        }),
    decreases requests.len(),
{
    if requests.len() > 0 {
        let (m1, id) = spec_enqueue(m, requests[0].target, requests[0].args);
        assert(m1.wf());
        lemma_enqueue_ids_strictly_increase(m1, requests.drop_first());
        let (mn, ids) = spec_enqueue_all(m, requests);
        let rest = spec_enqueue_all(m1, requests.drop_first()).1;
        assert forall|i: int| 0 <= i < ids.len() implies ids[i] == m.next_id + i by {
            if i > 0 {
                assert(ids[i] == rest[i - 1]);
            }
        }
    }
}

/// An id handed out by an enqueue never repeats an id already in use: it is
/// no queued task's id, no waiter's id and no channel's id.
pub proof fn lemma_enqueue_id_fresh(
    m: StateModel,
    target: String,
    args: Option<serde_json::Value>,
)
    requires
        m.wf(),
        m.next_id < u64::MAX,
    ensures
        ({
            let (m1, id) = spec_enqueue(m, target, args);
            &&& !m.waiters.contains_key(id)
            &&& !m.channels.contains_key(id)
            &&& forall|i: int| 0 <= i < m.tasks.len() ==> (#[trigger] m.tasks[i].id) != id
        }),
{
}

/// Draining delivers each task at most once: a second drain with no enqueue
/// in between finds the queue empty and returns nothing.
pub proof fn lemma_drain_twice(m: StateModel)
    ensures
        spec_drain(spec_drain(m).0).1 is None,
{
}

/// Exactly one completion delivers a task's result: completing a pending
/// waiter fulfills it, the originating call then takes exactly that result,
/// and a second completion under the same id is a no-op.
pub proof fn lemma_complete_exactly_once(m: StateModel, first: TaskResult, second: TaskResult)
    requires
        m.wf(),
        m.waiters.contains_key(first.id),
        m.waiters[first.id] is Pending,
        second.id == first.id,
    ensures
        ({
            let m1 = spec_complete(m, first);
            &&& m1.waiters[first.id] == WaiterState::Fulfilled(first.result)
            &&& spec_take_result(m1, first.id).1 == Some(first.result)
            &&& spec_complete(m1, second) == m1
        }),
{
}

/// A channel preserves FIFO order: three messages sent in order to an empty
/// channel toward the guest with room for all of them are all accepted and
/// are received in exactly the order they were sent.
pub proof fn lemma_channel_fifo(
    m: StateModel,
    id: u64,
    first: serde_json::Value,
    second: serde_json::Value,
    third: serde_json::Value,
)
    requires
        m.wf(),
        m.channels.contains_key(id),
        m.channels[id].direction is FromLua,
        m.channels[id].messages.len() == 0,
        m.channels[id].capacity >= 3,
    ensures
        ({
            let (ma, accepted1) = spec_send(m, id, first);
            let (mb, accepted2) = spec_send(ma, id, second);
            let (mc, accepted3) = spec_send(mb, id, third);
            let (mr1, received1) = spec_receive(mc, id);
            let (mr2, received2) = spec_receive(mr1, id);
            let (mr3, received3) = spec_receive(mr2, id);
            &&& accepted1 && accepted2 && accepted3
            &&& received1 == ChannelWaitOutcome::Message(first)
            &&& received2 == ChannelWaitOutcome::Message(second)
            &&& received3 == ChannelWaitOutcome::Message(third)
            &&& mr3.channels[id].messages.len() == 0
        }),
{
}

/// The state after a number of consecutive receives on one channel, and the
/// messages they observed, in order; a receive that yields no message ends
/// the sequence.
pub open spec fn spec_receive_all(m: StateModel, id: u64, count: nat) -> (StateModel, Seq<
    serde_json::Value,
>)
    decreases count,
{
    if count == 0 {
        (m, Seq::<serde_json::Value>::empty())
    } else {
        let (m1, outcome) = spec_receive(m, id);
        if outcome is Message {
            let (m2, rest) = spec_receive_all(m1, id, (count - 1) as nat);
            (m2, seq![outcome->0] + rest)
        } else {
            (m1, Seq::<serde_json::Value>::empty())
        }
    }
}

/// The waiting side observes a channel's buffered messages in exactly the
/// order they were sent: as many receives as the channel buffers yield the
/// whole buffer, oldest first, and leave the channel empty.
pub proof fn lemma_receive_in_fifo_order(m: StateModel, id: u64)
    requires
        m.wf(),
        m.channels.contains_key(id),
        m.channels[id].direction is FromLua,
    ensures
        ({
            let (mn, received) = spec_receive_all(m, id, m.channels[id].messages.len());
            &&& received == m.channels[id].messages
            &&& mn.channels.contains_key(id)
            &&& mn.channels[id].messages.len() == 0
        }),
    decreases m.channels[id].messages.len(),
{
    let count = m.channels[id].messages.len();
    if count > 0 {
        let (m1, outcome) = spec_receive(m, id);
        assert(m1.wf());
        lemma_receive_in_fifo_order(m1, id);
        let (mn, received) = spec_receive_all(m, id, count);
        assert(received =~= m.channels[id].messages);
    }
}

/// Sending to a full channel fails and changes nothing; the send never
/// blocks, it reports the refusal through its result.
pub proof fn lemma_send_to_full_channel_fails(m: StateModel, id: u64, message: serde_json::Value)
    requires
        m.channels.contains_key(id),
        m.channels[id].messages.len() >= m.channels[id].capacity,
    ensures
        spec_send(m, id, message) == (m, false),
{
}

/// Waiting on a channel whose sending half the guest holds fails immediately:
/// the outcome is the direction error, never a message and never the
/// would-suspend report of an empty queue.
pub proof fn lemma_wait_on_sender_fails(m: StateModel, id: u64)
    requires
        m.channels.contains_key(id),
        m.channels[id].direction is ToLua,
    ensures
        spec_receive(m, id) == (m, ChannelWaitOutcome::WrongDirection),
{
}

/// A reset invalidates everything the prior generation issued: afterwards
/// completing any task id is a no-op, no task result can be taken, sending on
/// any channel id fails, waiting finds no channel, and the allocator starts
/// again at zero.
pub proof fn lemma_reset_invalidates(
    m: StateModel,
    result: TaskResult,
    id: u64,
    message: serde_json::Value,
)
    ensures
        ({
            let r = spec_reset(m);
            &&& r.next_id == 0
            &&& r.wf()
            &&& spec_complete(r, result) == r
            &&& spec_take_result(r, id) == (r, None::<TaskResultValue>)
            &&& spec_send(r, id, message) == (r, false)
            &&& spec_receive(r, id) == (r, ChannelWaitOutcome::UnknownChannel)
        }),
{
}

} // verus!
