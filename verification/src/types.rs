//! The messages that travel between the executor, the manager and the workers.
use crate::json::{json_model, Json};
use serde_json::Value;
use vstd::prelude::*;

verus! {

/// What the connection manager is asked to do.
#[derive(Clone, Debug)]
pub enum WsconnMessage {
    /// Route this JSON-RPC request, already under its synthetic id, to a worker.
    Message(Value),
    /// Drop the current workers and build them anew.
    Reconnect(),
}

/// The content of a [`WsconnMessage`].
pub enum Outbound {
    Message(Json),
    Reconnect,
}

impl View for WsconnMessage {
    type V = Outbound;

    open spec fn view(&self) -> Outbound {
        match self {
            WsconnMessage::Message(v) => Outbound::Message(json_model(*v)),
            WsconnMessage::Reconnect() => Outbound::Reconnect,
        }
    }
}

/// What a worker reports on the error channel.
#[derive(Clone, Copy, PartialEq, Eq, Structural, Debug)]
pub enum WsChannelErr {
    /// The worker at this index has terminated.
    Closed(usize),
}

/// A response as a worker broadcasts it.
#[derive(Clone, Debug)]
pub struct IncomingResponse {
    /// The worker that received it.
    pub node_id: usize,
    /// The JSON document that the node sent.
    pub content: Value,
}

} // verus!
