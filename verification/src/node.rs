//! The node: its message-id counter and the rule by which it answers.

use crate::message::{Body, BodyView, Message, MessageView, Payload, PayloadView};
use vstd::prelude::*;

verus! {

/// Why a node refused a message.
#[derive(Debug, Clone, Copy, PartialEq, Eq)]
pub enum DispatchError {
    /// The message is well formed but must never reach a node: an `init_ok`.
    ProtocolViolation,
}

/// The payload of the reply that a payload calls for, if it calls for one.
pub open spec fn answer(payload: PayloadView) -> Option<PayloadView> {
    match payload {
        PayloadView::Init { .. } => Some(PayloadView::InitOk),
        PayloadView::Echo { echo } => Some(PayloadView::Echo { echo }),
        PayloadView::EchoOk { .. } => None,
        PayloadView::InitOk => None,
    }
}

/// Whether receiving `input` breaks the protocol.
pub open spec fn violates_protocol(input: MessageView) -> bool {
    input.body.payload is InitOk
}

/// The reply that a node whose counter stands at `next_id` owes to `input`:
/// addressed back to the sender, numbered `next_id`, naming the request's
/// own id, and carrying the payload that answers the request's.
pub open spec fn reply_to(next_id: nat, input: MessageView) -> Option<MessageView> {
    match answer(input.body.payload) {
        Some(payload) => Some(
            MessageView {
                src: input.dst,
                dst: input.src,
                body: BodyView { id: Some(next_id), in_reply_to: input.body.id, payload },
            },
        ),
        None => None,
    }
}

/// Where the counter stands after a node at `next_id` has handled `input`.
pub open spec fn next_id_after(next_id: nat, input: MessageView) -> nat {
    if reply_to(next_id, input) is Some {
        next_id + 1
    } else {
        next_id
    }
}

/// A node. It owns the counter from which its replies are numbered.
#[derive(Debug, Clone, Copy, PartialEq, Eq)]
pub struct EchoNode {
    id: usize,
}

impl EchoNode {
    /// The id that the node's next reply will carry.
    pub closed spec fn spec_next_id(&self) -> usize {
        self.id
    }

    /// A node that has sent nothing yet.
    pub fn new() -> (node: Self)
        ensures
            node.next_id() == 0,
    {
        EchoNode { id: 0 }
    }

    /// The id that the node's next reply will carry, which is also the number
    /// of replies it has handed out so far.
    #[verifier::when_used_as_spec(spec_next_id)]
    pub fn next_id(&self) -> (id: usize)
        ensures
            id == self.next_id(),
    {
        self.id
    }

    /// Handles one message.
    ///
    /// An `init` or an `echo` is answered: the reply comes back for the caller
    /// to send, and the counter moves on by one, since the id it carries is
    /// now spent. An `echo_ok` is taken note of and nothing else happens. An
    /// `init_ok` is refused, and the node stays as it was.
    ///
    /// The names in an `init` are not kept.
    ///
    /// The counter must have room for one more id where a reply is owed.
    pub fn step(&mut self, input: Message) -> (out: Result<Option<Message>, DispatchError>)
        requires
            answer(input@.body.payload) is Some ==> old(self).next_id() < usize::MAX,
        ensures
            out is Err <==> violates_protocol(input@),
            out matches Err(e) ==> e == DispatchError::ProtocolViolation,
            out matches Ok(reply) ==> reply.deep_view() == reply_to(
                old(self).next_id() as nat,
                input@,
            ),
            final(self).next_id() == next_id_after(old(self).next_id() as nat, input@),
            final(self).next_id() >= old(self).next_id(),
            out matches Ok(Some(_)) ==> final(self).next_id() == old(self).next_id() + 1,
            !(out matches Ok(Some(_))) ==> final(self).next_id() == old(self).next_id(),
            input@.body.payload matches PayloadView::Echo { echo } ==> (out matches Ok(Some(reply))
                && reply@.body.payload == (PayloadView::Echo { echo })),
            input@.body.payload is Init ==> (out matches Ok(Some(reply)) && reply@.body.payload
                == PayloadView::InitOk),
            out matches Ok(Some(reply)) ==> (reply@.body.in_reply_to == input@.body.id
                && reply@.body.id == Some(old(self).next_id() as nat) && reply@.src == input@.dst
                && reply@.dst == input@.src),
            input@.body.payload is EchoOk ==> out == Ok::<Option<Message>, DispatchError>(None),
    {
        let Message { src, dst, body } = input;
        let Body { id, in_reply_to: _, payload } = body;
        let payload = match payload {
            Payload::Init { .. } => Payload::InitOk,
            Payload::Echo { echo } => Payload::Echo { echo },
            Payload::EchoOk { .. } => {
                return Ok(None);
            },
            Payload::InitOk => {
                return Err(DispatchError::ProtocolViolation);
            },
        };
        let reply = Message {
            src: dst,
            dst: src,
            body: Body { id: Some(self.id), in_reply_to: id, payload },
        };
        self.id = self.id + 1;
        Ok(Some(reply))
    }
}

impl DispatchError {
    /// The text of the error, as a reader of a log should see it.
    pub open spec fn spec_message(&self) -> Seq<char> {
        match self {
            DispatchError::ProtocolViolation => "received init_ok message"@,
        }
    }

    /// The text of the error.
    pub fn message(&self) -> (text: String)
        ensures
            text@ == self.spec_message(),
    {
        match self {
            DispatchError::ProtocolViolation => "received init_ok message".to_string(),
        }
    }
}

} // verus!
