//! The per-connection worker: the state machine of one upstream socket.
//!
//! A worker starts out connecting, is ready once the socket is open, and is
//! closed for good after a failure or a graceful close. It owns no socket
//! here: each function takes what happened on the socket and returns what
//! to do next.
use crate::executor::method_of;
use crate::json::{
    get_member, json_model, json_parse, json_text, number_of, parse, render, text_of, Json,
    JsonNumber,
};
use crate::registry::{with_latency, Node, Registry, Rpc};
use crate::subscriptions::notified;
use crate::types::{IncomingResponse, WsChannelErr};
use serde_json::Value;
use vstd::prelude::*;
use vstd::string::StringExecFns;

verus! {

/// Whether `url::Url::parse` accepts a string.
pub uninterp spec fn url_parses(url: Seq<char>) -> bool;

/// `reqwest::Url::parse`, reduced to whether it succeeds.
#[verifier::external_body]
fn is_url(url: &str) -> (ok: bool)
    ensures
        ok == url_parses(url@),
{
    reqwest::Url::parse(url).is_ok()
}

/// Where a worker stands.
#[derive(Clone, Copy, PartialEq, Eq, Structural, Debug)]
pub enum WorkerState {
    Connecting,
    Ready,
    Closed,
}

/// The request that a worker has written and not yet seen answered.
#[derive(Clone, Copy, PartialEq, Eq, Structural, Debug)]
pub struct Outstanding {
    /// The request's id, where it is a non-negative integer.
    pub id: Option<u64>,
    /// When it was written, in nanoseconds of the caller's clock.
    pub sent_at: u64,
}

/// One worker.
#[derive(Clone, Copy, PartialEq, Eq, Structural, Debug)]
pub struct Worker {
    /// The position of the worker's node in the registry.
    pub index: usize,
    pub state: WorkerState,
    pub outstanding: Option<Outstanding>,
}

/// What a socket delivers to its worker.
pub enum SocketEvent {
    /// A text or binary frame: the bytes of a JSON document.
    Document(Vec<u8>),
    /// A ping or a pong.
    Control,
    /// The peer closed the connection, or reading failed.
    Ended,
}

/// What a worker has to do next.
pub enum WorkerAction {
    /// Open the socket at this URL.
    Connect(String),
    /// Write this text frame.
    Send(String),
    /// Not now: offer this message again once the worker can send.
    Hold(Value),
    /// Publish this response to the executors.
    Broadcast(IncomingResponse),
    /// Hand this notification to the users of the subscription `upstream_id`.
    Notify { upstream_id: String, content: Value },
    /// Report this on the error channel.
    Report(WsChannelErr),
    /// Close the socket gracefully.
    Close,
    /// Drop what came in.
    Discard,
    /// Nothing to do.
    Idle,
}

/// The content of a [`WorkerAction`].
pub enum Action {
    Connect(Seq<char>),
    Send(Seq<char>),
    Hold(Json),
    Broadcast { node_id: usize, content: Json },
    Notify { upstream_id: Seq<char>, content: Json },
    Report(WsChannelErr),
    Close,
    Discard,
    Idle,
}

impl View for WorkerAction {
    type V = Action;

    open spec fn view(&self) -> Action {
        match self {
            WorkerAction::Connect(url) => Action::Connect(url@),
            WorkerAction::Send(frame) => Action::Send(frame@),
            WorkerAction::Hold(message) => Action::Hold(json_model(*message)),
            WorkerAction::Broadcast(response) => Action::Broadcast {
                node_id: response.node_id,
                content: json_model(response.content),
            },
            WorkerAction::Notify { upstream_id, content } => Action::Notify {
                upstream_id: upstream_id@,
                content: json_model(*content),
            },
            WorkerAction::Report(e) => Action::Report(*e),
            WorkerAction::Close => Action::Close,
            WorkerAction::Discard => Action::Discard,
            WorkerAction::Idle => Action::Idle,
        }
    }
}

/// Whether a worker for `node` can try to connect: the node has a URL, and
/// the URL parses.
pub open spec fn connectable(node: Node) -> bool {
    match node.ws_url {
        Some(url) => url_parses(url),
        None => false,
    }
}

/// The worker that starts for `node` at position `index`.
pub open spec fn started(node: Node, index: usize) -> Worker {
    Worker {
        index,
        state: if connectable(node) {
            WorkerState::Connecting
        } else {
            WorkerState::Closed
        },
        outstanding: None,
    }
}

/// What the worker for `node` at position `index` does first.
pub open spec fn start_action(node: Node, index: usize) -> Action {
    if connectable(node) {
        Action::Connect(node.ws_url->0)
    } else {
        Action::Report(WsChannelErr::Closed(index))
    }
}

/// Whether a frame is the response to the outstanding request: it is no
/// subscription notification, and it carries the request's id where that
/// is known.
pub open spec fn is_response(content: Json, outstanding: Outstanding) -> bool {
    &&& method_of(content) != Some("eth_subscription"@)
    &&& match outstanding.id {
        Some(n) => content.field("id"@) == Json::Number(JsonNumber::Unsigned(n)),
        None => true,
    }
}

/// The time between two readings of the clock; zero where it ran backwards.
pub open spec fn elapsed(sent_at: u64, now: u64) -> u64 {
    if now >= sent_at {
        (now - sent_at) as u64
    } else {
        0
    }
}

impl Worker {
    /// Whether the worker can write a request: it is ready and waits for no response.
    pub open spec fn can_send(self) -> bool {
        self.state == WorkerState::Ready && self.outstanding is None
    }

    /// The worker after the attempt to connect ended.
    pub open spec fn after_connect(self, connected: bool) -> Worker {
        if self.state == WorkerState::Connecting {
            Worker {
                state: if connected {
                    WorkerState::Ready
                } else {
                    WorkerState::Closed
                },
                ..self
            }
        } else {
            self
        }
    }

    /// The worker after a failure of its socket.
    pub open spec fn after_failure(self) -> Worker {
        Worker { state: WorkerState::Closed, outstanding: None, ..self }
    }

    /// What a failure of the socket makes the worker report: its closing, once.
    pub open spec fn failure_action(self) -> Action {
        if self.state == WorkerState::Closed {
            Action::Idle
        } else {
            Action::Report(WsChannelErr::Closed(self.index))
        }
    }

    /// The worker after `message` was taken from its queue at time `now`.
    pub open spec fn after_outbound(self, message: Json, now: u64) -> Worker {
        if !self.can_send() {
            self
        } else if method_of(message) == Some("close"@) {
            Worker { state: WorkerState::Closed, ..self }
        } else {
            Worker {
                outstanding: Some(
                    Outstanding { id: message.field("id"@).as_unsigned(), sent_at: now },
                ),
                ..self
            }
        }
    }

    /// What the worker does with `message` from its queue.
    pub open spec fn outbound_action(self, message: Json) -> Action {
        if self.state == WorkerState::Closed {
            Action::Discard
        } else if !self.can_send() {
            Action::Hold(message)
        } else if method_of(message) == Some("close"@) {
            Action::Close
        } else {
            Action::Send(json_text(message))
        }
    }

    /// Whether `frame` completes the outstanding request.
    pub open spec fn completes(self, frame: Seq<u8>) -> bool {
        &&& self.state == WorkerState::Ready
        &&& self.outstanding is Some
        &&& json_parse(frame) is Some
        &&& is_response(json_parse(frame)->0, self.outstanding->0)
    }

    /// The worker after `frame` arrived.
    pub open spec fn after_frame(self, frame: Seq<u8>) -> Worker {
        if self.state != WorkerState::Ready {
            self
        } else if json_parse(frame) is None {
            self.after_failure()
        } else if self.completes(frame) {
            Worker { outstanding: None, ..self }
        } else {
            self
        }
    }

    /// What the worker does with `frame`.
    pub open spec fn frame_action(self, frame: Seq<u8>) -> Action {
        if self.state != WorkerState::Ready {
            Action::Discard
        } else {
            match json_parse(frame) {
                None => Action::Report(WsChannelErr::Closed(self.index)),
                Some(content) => if self.completes(frame) {
                    Action::Broadcast { node_id: self.index, content }
                } else {
                    match notified(content) {
                        Some(upstream_id) => Action::Notify { upstream_id, content },
                        None => Action::Discard,
                    }
                },
            }
        }
    }

    /// The registry after `frame` arrived at time `now`: a completed round
    /// trip updates the latency of the worker's node.
    pub open spec fn registry_after_frame(self, frame: Seq<u8>, now: u64, nodes: Seq<Node>) -> Seq<
        Node,
    > {
        if self.completes(frame) {
            with_latency(nodes, self.index as int, elapsed(self.outstanding->0.sent_at, now))
        } else {
            nodes
        }
    }

    /// The attempt to connect ended: a worker that was connecting is ready
    /// now, or closed, which it reports.
    pub fn on_connected(&mut self, connected: bool) -> (action: WorkerAction)
        ensures
            *final(self) == old(self).after_connect(connected),
            action@ == if old(self).state == WorkerState::Connecting && !connected {
                Action::Report(WsChannelErr::Closed(old(self).index))
            } else {
                Action::Idle
            },
    {
        match self.state {
            WorkerState::Connecting => {
                if connected {
                    self.state = WorkerState::Ready;
                    WorkerAction::Idle
                } else {
                    self.state = WorkerState::Closed;
                    WorkerAction::Report(WsChannelErr::Closed(self.index))
                }
            },
            _ => WorkerAction::Idle,
        }
    }

    /// Whether the worker can write a request now, so that it is worth
    /// taking one from its queue.
    pub fn accepts_outbound(&self) -> (b: bool)
        ensures
            b == self.can_send(),
    {
        let ready = match self.state {
            WorkerState::Ready => true,
            _ => false,
        };
        ready && self.outstanding.is_none()
    }

    /// Takes what the socket delivered at time `now`: a document goes to
    /// [`Worker::on_frame`], a control frame is passed over, and the end of
    /// the stream is a failure of the socket.
    pub fn on_socket(&mut self, event: SocketEvent, now: u64, registry: &mut Registry) -> (action:
        WorkerAction)
        ensures
            *final(self) == match event {
                SocketEvent::Document(frame) => old(self).after_frame(frame@),
                SocketEvent::Control => *old(self),
                SocketEvent::Ended => old(self).after_failure(),
            },
            action@ == match event {
                SocketEvent::Document(frame) => old(self).frame_action(frame@),
                SocketEvent::Control => Action::Idle,
                SocketEvent::Ended => old(self).failure_action(),
            },
            final(registry)@ == match event {
                SocketEvent::Document(frame) => old(self).registry_after_frame(
                    frame@,
                    now,
                    old(registry)@,
                ),
                _ => old(registry)@,
            },
            final(registry).spec_generation() == old(registry).spec_generation(),
            old(registry).wf() ==> final(registry).wf(),
    {
        match event {
            SocketEvent::Document(frame) => self.on_frame(frame.as_slice(), now, registry),
            SocketEvent::Control => WorkerAction::Idle,
            SocketEvent::Ended => self.on_failure(),
        }
    }

    /// The socket failed, on a write or on a read: the worker closes and
    /// reports it, unless it was closed already.
    pub fn on_failure(&mut self) -> (action: WorkerAction)
        ensures
            *final(self) == old(self).after_failure(),
            action@ == old(self).failure_action(),
    {
        let was_closed = match self.state {
            WorkerState::Closed => true,
            _ => false,
        };
        self.state = WorkerState::Closed;
        self.outstanding = None;
        if was_closed {
            WorkerAction::Idle
        } else {
            WorkerAction::Report(WsChannelErr::Closed(self.index))
        }
    }

    /// Takes `message` from the worker's queue at time `now`. A ready worker
    /// without an outstanding request writes it, or closes gracefully where
    /// its method is `close`. A closed worker drops it. Otherwise the
    /// message has to wait.
    pub fn on_outbound(&mut self, message: Value, now: u64) -> (action: WorkerAction)
        ensures
            *final(self) == old(self).after_outbound(json_model(message), now),
            action@ == old(self).outbound_action(json_model(message)),
    {
        match self.state {
            WorkerState::Closed => {
                return WorkerAction::Discard;
            },
            WorkerState::Connecting => {
                return WorkerAction::Hold(message);
            },
            WorkerState::Ready => {},
        }
        if self.outstanding.is_some() {
            return WorkerAction::Hold(message);
        }
        let method = match get_member(&message, "method") {
            Some(m) => text_of(&m),
            None => None,
        };
        let closing = match &method {
            Some(m) => *m == String::from_str("close"),
            None => false,
        };
        if closing {
            self.state = WorkerState::Closed;
            return WorkerAction::Close;
        }
        let id = match get_member(&message, "id") {
            Some(v) => number_of(&v),
            None => None,
        };
        self.outstanding = Some(Outstanding { id, sent_at: now });
        WorkerAction::Send(render(&message))
    }

    /// Takes a frame that arrived at time `now`. The response to the
    /// outstanding request is broadcast under the worker's index, and the
    /// round-trip time becomes the latency of the worker's node. Any other
    /// document is a notification for the subscription it names. Bytes that
    /// are no JSON document close the worker.
    pub fn on_frame(&mut self, frame: &[u8], now: u64, registry: &mut Registry) -> (action:
        WorkerAction)
        ensures
            *final(self) == old(self).after_frame(frame@),
            action@ == old(self).frame_action(frame@),
            final(registry)@ == old(self).registry_after_frame(frame@, now, old(registry)@),
            final(registry).spec_generation() == old(registry).spec_generation(),
            old(registry).wf() ==> final(registry).wf(),
    {
        match self.state {
            WorkerState::Ready => {},
            _ => {
                return WorkerAction::Discard;
            },
        }
        let content = match parse(frame) {
            Some(content) => content,
            None => {
                return self.on_failure();
            },
        };
        match self.outstanding {
            Some(outstanding) => {
                if is_response_to(&content, outstanding) {
                    let took = if now >= outstanding.sent_at {
                        now - outstanding.sent_at
                    } else {
                        0
                    };
                    registry.update_latency(self.index, took);
                    self.outstanding = None;
                    return WorkerAction::Broadcast(
                        IncomingResponse { node_id: self.index, content },
                    );
                }
            },
            None => {},
        }
        let upstream_id = match get_member(&content, "params") {
            Some(params) => match get_member(&params, "subscription") {
                Some(s) => text_of(&s),
                None => None,
            },
            None => None,
        };
        match upstream_id {
            Some(upstream_id) => WorkerAction::Notify { upstream_id, content },
            None => WorkerAction::Discard,
        }
    }
}

/// Latency feedback. The response to the outstanding request of the worker
/// at position `i` sets the latency of node `i` to the time the round trip
/// took, leaves every other node as it was, and frees the worker for the
/// next request.
pub proof fn lemma_round_trip_updates_latency(
    worker: Worker,
    frame: Seq<u8>,
    now: u64,
    nodes: Seq<Node>,
)
    requires
        worker.completes(frame),
        worker.index < nodes.len(),
    ensures
        ({
            let after = worker.registry_after_frame(frame, now, nodes);
            &&& after.len() == nodes.len()
            &&& after[worker.index as int].latency == Some(
                elapsed(worker.outstanding->0.sent_at, now),
            )
            &&& forall|j: int|
                0 <= j < nodes.len() && j != worker.index ==> after[j] == nodes[j]
        }),
        worker.after_frame(frame).can_send(),
        worker.frame_action(frame) == (Action::Broadcast {
            node_id: worker.index,
            content: json_parse(frame)->0,
        }),
{
}

/// Reconnect isolation. A worker of a new generation has no outstanding
/// request, so whatever frame reaches it before it wrote a request of its
/// own is never broadcast as a response: a call that went out in an earlier
/// generation gets no answer from the new one, and ends in its timeout.
pub proof fn lemma_new_generation_answers_nothing(node: Node, index: usize, frame: Seq<u8>)
    ensures
        started(node, index).outstanding is None,
        started(node, index).after_connect(true).outstanding is None,
        !(started(node, index).after_connect(true).frame_action(frame) is Broadcast),
        started(node, index).after_connect(true).after_frame(frame).outstanding is None,
{
}

/// A closed worker stays closed, reports nothing more, and drops whatever
/// is still offered to it.
pub proof fn lemma_closed_is_final(worker: Worker, message: Json, frame: Seq<u8>, now: u64)
    requires
        worker.state == WorkerState::Closed,
    ensures
        worker.after_connect(true).state == WorkerState::Closed,
        worker.after_outbound(message, now).state == WorkerState::Closed,
        worker.after_frame(frame).state == WorkerState::Closed,
        worker.after_failure().state == WorkerState::Closed,
        worker.failure_action() == Action::Idle,
        worker.outbound_action(message) == Action::Discard,
        worker.frame_action(frame) == Action::Discard,
{
}

/// Whether `content` is the response to the outstanding request.
fn is_response_to(content: &Value, outstanding: Outstanding) -> (b: bool)
    ensures
        b == is_response(json_model(*content), outstanding),
{
    let method = match get_member(content, "method") {
        Some(m) => text_of(&m),
        None => None,
    };
    let notification = match &method {
        Some(m) => *m == String::from_str("eth_subscription"),
        None => false,
    };
    if notification {
        return false;
    }
    match outstanding.id {
        Some(n) => match get_member(content, "id") {
            Some(id) => number_of(&id) == Some(n),
            None => false,
        },
        None => true,
    }
}

/// Starts the worker for `rpc`, the node at position `index`. A node
/// without a URL, or with one that does not parse, gives a closed worker
/// that reports its closing; any other a worker that has to connect.
pub fn ws_conn(rpc: &Rpc, index: usize) -> (start: (Worker, WorkerAction))
    ensures
        start.0 == started(rpc@, index),
        start.1@ == start_action(rpc@, index),
{
    match &rpc.ws_url {
        Some(url) => {
            if is_url(url.as_str()) {
                (
                    Worker { index, state: WorkerState::Connecting, outstanding: None },
                    WorkerAction::Connect(url.clone()),
                )
            } else {
                (
                    Worker { index, state: WorkerState::Closed, outstanding: None },
                    WorkerAction::Report(WsChannelErr::Closed(index)),
                )
            }
        },
        None => (
            Worker { index, state: WorkerState::Closed, outstanding: None },
            WorkerAction::Report(WsChannelErr::Closed(index)),
        ),
    }
}

} // verus!
