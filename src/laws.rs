//! What holds of a node over a whole run of messages.
use vstd::prelude::*;
use crate::node::{answers, initial_view, next_state, NodeView};
use crate::protocol::{is_request, Message, MessageType};

verus! {

/// The state after handling each variant of `ts` in turn, starting from `n`.
pub open spec fn run(n: NodeView, ts: Seq<MessageType>) -> NodeView
    decreases ts.len(),
{
    if ts.len() == 0 {
        n
    } else {
        run(next_state(n, ts[0]), ts.drop_first())
    }
}

/// The sequence numbers that the replies to `ts` carry, in the order they are
/// sent, starting from `n`; a refused reply variant sends nothing.
pub open spec fn emitted_ids(n: NodeView, ts: Seq<MessageType>) -> Seq<nat>
    decreases ts.len(),
{
    if ts.len() == 0 {
        Seq::empty()
    } else if is_request(ts[0]) {
        seq![n.next_msg_id] + emitted_ids(next_state(n, ts[0]), ts.drop_first())
    } else {
        emitted_ids(n, ts.drop_first())
    }
}

/// One `broadcast` request for each value of `vs`, in order.
pub open spec fn broadcasts(vs: Seq<usize>) -> Seq<MessageType> {
    vs.map_values(|v: usize| MessageType::Broadcast { message: v })
}

proof fn lemma_broadcasts_append(n: NodeView, vs: Seq<usize>)
    ensures
        run(n, broadcasts(vs)).recorded_values == n.recorded_values + vs,
    decreases vs.len(),
{
    if vs.len() == 0 {
        assert(n.recorded_values + vs =~= n.recorded_values);
    } else {
        let n1 = next_state(n, broadcasts(vs)[0]);
        assert(broadcasts(vs).drop_first() =~= broadcasts(vs.drop_first()));
        lemma_broadcasts_append(n1, vs.drop_first());
        assert(n1.recorded_values + vs.drop_first() =~= n.recorded_values + vs);
    }
}

/// Broadcasting v1..vk to a fresh node and then reading returns exactly
/// [v1..vk], in that order, duplicates included.
pub proof fn lemma_broadcasts_then_read(
    vs: Seq<usize>,
    read: Message,
    fresh: u128,
    reply: Message,
)
    requires
        read.body.message_type is Read,
        answers(run(initial_view(), broadcasts(vs)), read, fresh, reply),
    ensures
        run(initial_view(), broadcasts(vs)).recorded_values == vs,
        reply.body.message_type matches MessageType::ReadOk { messages } && messages@ == vs,
{
    lemma_broadcasts_append(initial_view(), vs);
    assert(initial_view().recorded_values + vs =~= vs);
}

proof fn lemma_emitted_ids_from(n: NodeView, ts: Seq<MessageType>)
    ensures
        forall|k: int|
            0 <= k < emitted_ids(n, ts).len() ==> #[trigger] emitted_ids(n, ts)[k] >= n.next_msg_id,
        forall|i: int, j: int|
            0 <= i < j < emitted_ids(n, ts).len() ==> #[trigger] emitted_ids(n, ts)[i]
                < #[trigger] emitted_ids(n, ts)[j],
    decreases ts.len(),
{
    if ts.len() > 0 {
        let n1 = next_state(n, ts[0]);
        lemma_emitted_ids_from(n1, ts.drop_first());
        let rest = emitted_ids(n1, ts.drop_first());
        if is_request(ts[0]) {
            let e = emitted_ids(n, ts);
            assert(e == seq![n.next_msg_id] + rest);
            assert forall|k: int| 0 < k < e.len() implies e[k] == rest[k - 1] by {}
        }
    }
}

/// The sequence numbers a node sends over its lifetime start at 1 and
/// strictly increase.
pub proof fn lemma_msg_ids_increase(ts: Seq<MessageType>)
    ensures
        emitted_ids(initial_view(), ts).len() > 0 ==> emitted_ids(initial_view(), ts)[0] == 1,
        forall|i: int, j: int|
            0 <= i < j < emitted_ids(initial_view(), ts).len() ==> #[trigger] emitted_ids(
                initial_view(),
                ts,
            )[i] < #[trigger] emitted_ids(initial_view(), ts)[j],
    decreases ts.len(),
{
    lemma_emitted_ids_from(initial_view(), ts);
    if ts.len() > 0 && !is_request(ts[0]) {
        lemma_msg_ids_increase(ts.drop_first());
    }
}

/// Replies to `generate` requests carry pairwise-distinct identifiers
/// whenever the identifier source handed out pairwise-distinct values: the
/// node passes each value on unchanged.
pub proof fn lemma_generated_ids_distinct(
    states: Seq<NodeView>,
    requests: Seq<Message>,
    fresh: Seq<u128>,
    replies: Seq<Message>,
)
    requires
        states.len() == requests.len(),
        fresh.len() == requests.len(),
        replies.len() == requests.len(),
        forall|k: int|
            0 <= k < requests.len() ==> (#[trigger] requests[k]).body.message_type is Generate
                && answers(states[k], requests[k], fresh[k], replies[k]),
        forall|i: int, j: int|
            0 <= i < j < fresh.len() ==> #[trigger] fresh[i] != #[trigger] fresh[j],
    ensures
        forall|k: int|
            0 <= k < replies.len() ==> (#[trigger] replies[k]).body.message_type is GenerateOk,
        forall|i: int, j: int|
            0 <= i < j < replies.len() ==> (#[trigger] replies[i]).body.message_type->GenerateOk_id
                != (#[trigger] replies[j]).body.message_type->GenerateOk_id,
{
    assert forall|i: int, j: int| 0 <= i < j < replies.len() implies (
    #[trigger] replies[i]).body.message_type->GenerateOk_id != (
    #[trigger] replies[j]).body.message_type->GenerateOk_id by {
        assert(requests[i].body.message_type is Generate);
        assert(requests[j].body.message_type is Generate);
        assert(fresh[i] != fresh[j]);
    }
    assert forall|k: int| 0 <= k < replies.len() implies (
    #[trigger] replies[k]).body.message_type is GenerateOk by {
        assert(requests[k].body.message_type is Generate);
    }
}

} // verus!
