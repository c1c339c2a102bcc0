//! The messages a node receives and sends, and their mathematical views.
//!
//! Every message, request or reply, is an addressed envelope around a body.
//! The body carries two optional correlation ids and one payload out of a
//! closed set. Contracts speak of messages through their views, in which
//! strings are sequences of characters and ids are natural numbers.

use vstd::prelude::*;

verus! {

/// The typed content of a message.
#[derive(Debug, Clone, PartialEq, Eq)]
pub enum Payload {
    /// A request to send `echo` back; also the reply that does so.
    Echo { echo: String },
    /// An acknowledgment of an echo. It calls for no action.
    EchoOk { echo: String },
    /// The handshake that tells a node its own name and those of all nodes.
    Init { node_id: String, node_ids: Vec<String> },
    /// The reply to `Init`. A node sends it and must never receive it.
    InitOk,
}

/// The inner part of a message: correlation ids and payload.
#[derive(Debug, Clone, PartialEq, Eq)]
pub struct Body {
    /// The sender's own number for this message, if it gave one.
    pub id: Option<usize>,
    /// On a reply, the `id` of the request that it answers.
    pub in_reply_to: Option<usize>,
    /// What the message says.
    pub payload: Payload,
}

/// An addressed message.
#[derive(Debug, Clone, PartialEq, Eq)]
pub struct Message {
    /// The name of the sending node.
    pub src: String,
    /// The name of the node the message is meant for.
    pub dst: String,
    /// Ids and payload.
    pub body: Body,
}

/// [`Payload`] as a mathematical value.
pub enum PayloadView {
    Echo { echo: Seq<char> },
    EchoOk { echo: Seq<char> },
    Init { node_id: Seq<char>, node_ids: Seq<Seq<char>> },
    InitOk,
}

/// [`Body`] as a mathematical value.
pub struct BodyView {
    pub id: Option<nat>,
    pub in_reply_to: Option<nat>,
    pub payload: PayloadView,
}

/// [`Message`] as a mathematical value.
pub struct MessageView {
    pub src: Seq<char>,
    pub dst: Seq<char>,
    pub body: BodyView,
}

/// An optional machine integer as an optional natural number.
pub open spec fn id_view(id: Option<usize>) -> Option<nat> {
    match id {
        Some(n) => Some(n as nat),
        None => None,
    }
}

impl View for Payload {
    type V = PayloadView;

    open spec fn view(&self) -> PayloadView {
        match self {
            Payload::Echo { echo } => PayloadView::Echo { echo: echo@ },
            Payload::EchoOk { echo } => PayloadView::EchoOk { echo: echo@ },
            Payload::Init { node_id, node_ids } => PayloadView::Init {
                node_id: node_id@,
                node_ids: node_ids.deep_view(),
            },
            Payload::InitOk => PayloadView::InitOk,
        }
    }
}

impl DeepView for Payload {
    type V = PayloadView;

    open spec fn deep_view(&self) -> PayloadView {
        self@
    }
}

impl View for Body {
    type V = BodyView;

    open spec fn view(&self) -> BodyView {
        BodyView {
            id: id_view(self.id),
            in_reply_to: id_view(self.in_reply_to),
            payload: self.payload@,
        }
    }
}

impl DeepView for Body {
    type V = BodyView;

    open spec fn deep_view(&self) -> BodyView {
        self@
    }
}

impl View for Message {
    type V = MessageView;

    open spec fn view(&self) -> MessageView {
        MessageView { src: self.src@, dst: self.dst@, body: self.body@ }
    }
}

impl DeepView for Message {
    type V = MessageView;

    open spec fn deep_view(&self) -> MessageView {
        self@
    }
}

} // verus!
