//! What holds of a node over a whole run: a sequence of messages handled one
//! after the other, each by one call of [`EchoNode::step`](crate::EchoNode::step).
//!
//! A run ends at the first message that breaks the protocol; what follows it
//! is never handled.

use crate::message::MessageView;
use crate::node::{next_id_after, reply_to, violates_protocol};
use vstd::prelude::*;

verus! {

/// Where a node stands after a run.
pub struct Trace {
    /// The id that the next reply would carry.
    pub next_id: nat,
    /// The replies handed out, oldest first.
    pub replies: Seq<MessageView>,
    /// Whether a message broke the protocol and ended the run.
    pub halted: bool,
}

/// The run of a node whose counter stood at `start` over `inputs`.
pub open spec fn trace_from(start: nat, inputs: Seq<MessageView>) -> Trace
    decreases inputs.len(),
{
    if inputs.len() == 0 {
        Trace { next_id: start, replies: Seq::empty(), halted: false }
    } else {
        let before = trace_from(start, inputs.drop_last());
        let input = inputs.last();
        if before.halted || violates_protocol(input) {
            Trace { next_id: before.next_id, replies: before.replies, halted: true }
        } else {
            Trace {
                next_id: next_id_after(before.next_id, input),
                replies: match reply_to(before.next_id, input) {
                    Some(reply) => before.replies.push(reply),
                    None => before.replies,
                },
                halted: false,
            }
        }
    }
}

/// The run of a fresh node over `inputs`.
pub open spec fn trace(inputs: Seq<MessageView>) -> Trace {
    trace_from(0, inputs)
}

/// The counter has moved on by exactly the number of replies handed out, and
/// the replies carry the ids from `start` on, one after the other, with none
/// left out and none used twice.
pub proof fn lemma_counter_counts_replies(start: nat, inputs: Seq<MessageView>)
    ensures
        trace_from(start, inputs).next_id == start + trace_from(start, inputs).replies.len(),
        forall|i: int|
            0 <= i < trace_from(start, inputs).replies.len() ==> (#[trigger] trace_from(
                start,
                inputs,
            ).replies[i]).body.id == Some((start + i) as nat),
    decreases inputs.len(),
{
    if inputs.len() > 0 {
        lemma_counter_counts_replies(start, inputs.drop_last());
    }
}

/// After a fresh node has handed out N replies, its counter stands at N.
pub proof fn lemma_fresh_counter_is_reply_count(inputs: Seq<MessageView>)
    ensures
        trace(inputs).next_id == trace(inputs).replies.len(),
{
    lemma_counter_counts_replies(0, inputs);
}

/// The counter never goes back: after more of the same run it stands at least
/// where it stood before, and the replies handed out earlier are still the
/// first of those handed out.
pub proof fn lemma_counter_never_decreases(start: nat, inputs: Seq<MessageView>, n: int)
    requires
        0 <= n <= inputs.len(),
    ensures
        trace_from(start, inputs.take(n)).next_id <= trace_from(start, inputs).next_id,
        trace_from(start, inputs.take(n)).replies.is_prefix_of(trace_from(start, inputs).replies),
    decreases inputs.len(),
{
    if n == inputs.len() {
        assert(inputs.take(n) =~= inputs);
    } else {
        assert(inputs.drop_last().take(n) =~= inputs.take(n));
        lemma_counter_never_decreases(start, inputs.drop_last(), n);
    }
}

/// A run is ended by a protocol violation exactly when one of its messages
/// breaks the protocol: a run still going holds no `init_ok`, and one that
/// holds an `init_ok` has been ended.
pub proof fn lemma_unhalted_run_holds_no_init_ok(start: nat, inputs: Seq<MessageView>)
    ensures
        !trace_from(start, inputs).halted <==> forall|i: int|
            0 <= i < inputs.len() ==> !violates_protocol(#[trigger] inputs[i]),
    decreases inputs.len(),
{
    if inputs.len() > 0 {
        let front = inputs.drop_last();
        lemma_unhalted_run_holds_no_init_ok(start, front);
        assert(forall|i: int| 0 <= i < front.len() ==> front[i] == inputs[i]);
        if !trace_from(start, inputs).halted {
            assert forall|i: int| 0 <= i < inputs.len() implies !violates_protocol(
                #[trigger] inputs[i],
            ) by {
                if i < front.len() {
                    assert(front[i] == inputs[i]);
                }
            }
        } else {
            if trace_from(start, front).halted {
                let j = choose|j: int| 0 <= j < front.len() && violates_protocol(front[j]);
                assert(violates_protocol(inputs[j]));
            } else {
                assert(violates_protocol(inputs[inputs.len() - 1]));
            }
        }
    }
}

} // verus!
