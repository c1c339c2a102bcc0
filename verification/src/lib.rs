//! The protocol core of a single node in a message-passing test harness.
//!
//! The node answers addressed requests: `init` with `init_ok`, `echo` with an
//! `echo` carrying the same text. Every reply is stamped with the next value of
//! a counter that the node owns, and names the request it answers.
//!
//! The crate does no input or output. A caller decodes a [`Message`], hands it
//! to [`EchoNode::step`], and sends off whatever reply comes back.

pub mod message;
pub mod node;
pub mod trace;

pub use message::{Body, BodyView, Message, MessageView, Payload, PayloadView};
pub use node::{DispatchError, EchoNode};
pub use trace::Trace;
