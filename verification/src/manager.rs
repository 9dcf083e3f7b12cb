//! The connection manager: which worker gets which call.
//!
//! The manager keeps one handle per registered node, at the node's
//! position. For every call it asks the selector for a node and delivers the
//! call to that node's worker. It never replays: a call that cannot be
//! delivered is dropped, and its executor runs into its timeout.
use crate::error::Error;
use crate::json::{json_model, Json};
use crate::registry::{is_choice, lemma_choice_unique, pick, Registry};
use crate::types::{Outbound, WsconnMessage};
use crate::worker::{start_action, started, ws_conn, Worker, WorkerAction};
use serde_json::Value;
use vstd::prelude::*;

verus! {

/// What the manager does with a message.
pub enum Routing {
    /// Hand `payload` to the worker at position `worker`.
    Deliver { worker: usize, payload: Value },
    /// Drop the call.
    Dropped(Error),
    /// Drop the current workers and start new ones for the registry.
    Rebuild,
}

/// The content of a [`Routing`].
pub enum Route {
    Deliver { worker: usize, payload: Json },
    Dropped(Error),
    Rebuild,
}

impl View for Routing {
    type V = Route;

    open spec fn view(&self) -> Route {
        match self {
            Routing::Deliver { worker, payload } => Route::Deliver {
                worker: *worker,
                payload: json_model(*payload),
            },
            Routing::Dropped(e) => Route::Dropped(*e),
            Routing::Rebuild => Route::Rebuild,
        }
    }
}

/// Whether there is a worker handle at position `i`.
pub open spec fn reachable<T>(handles: Seq<Option<T>>, i: int) -> bool {
    0 <= i < handles.len() && handles[i] is Some
}

/// Where a payload goes that is meant for the worker at position `worker`.
pub open spec fn directed<T>(handles: Seq<Option<T>>, worker: usize, payload: Json) -> Route {
    if reachable(handles, worker as int) {
        Route::Deliver { worker, payload }
    } else {
        Route::Dropped(Error::RoutingUnavailable)
    }
}

/// Delivers `payload` to the worker at position `worker`, or drops it where
/// that worker is absent.
pub fn deliver_to<T>(ws_handles: &Vec<Option<T>>, worker: usize, payload: Value) -> (routing:
    Routing)
    ensures
        routing@ == directed(ws_handles@, worker, json_model(payload)),
{
    if worker >= ws_handles.len() {
        return Routing::Dropped(Error::RoutingUnavailable);
    }
    match &ws_handles[worker] {
        Some(_) => Routing::Deliver { worker, payload },
        None => Routing::Dropped(Error::RoutingUnavailable),
    }
}

/// Handles one message from the manager's queue. A call goes to the worker
/// of the node that the selector picks; it is dropped where the registry is
/// empty, the position has no handle, or the handle is absent. A reconnect
/// asks for the workers to be rebuilt.
pub fn ws_conn_manager<T>(
    rpc_list: &Registry,
    ws_handles: &Vec<Option<T>>,
    message: WsconnMessage,
) -> (routing: Routing)
    ensures
        match routing@ {
            Route::Deliver { worker, payload } => message@ == Outbound::Message(payload)
                && is_choice(rpc_list@, worker as int) && reachable(ws_handles@, worker as int),
            Route::Dropped(e) => e == Error::RoutingUnavailable && message@ is Message
                && forall|i: int| is_choice(rpc_list@, i) ==> !reachable(ws_handles@, i),
            Route::Rebuild => message@ is Reconnect,
        },
{
    match message {
        WsconnMessage::Message(incoming) => {
            let chosen = pick(rpc_list);
            match chosen.1 {
                Some(rpc_position) => {
                    proof {
                        assert forall|i: int| is_choice(rpc_list@, i) implies i
                            == rpc_position as int by {
                            lemma_choice_unique(rpc_list@, i, rpc_position as int);
                        }
                    }
                    deliver_to(ws_handles, rpc_position, incoming)
                },
                None => Routing::Dropped(Error::RoutingUnavailable),
            }
        },
        WsconnMessage::Reconnect() => Routing::Rebuild,
    }
}

/// A worker as it starts, with the first thing it has to do.
pub struct WorkerStart {
    pub worker: Worker,
    pub action: WorkerAction,
}

/// Starts one worker per registered node, in registry order: the worker at
/// position `i` is the one for the node at position `i`.
pub fn create_ws_vec(rpc_list: &Registry) -> (workers: Vec<WorkerStart>)
    ensures
        workers@.len() == rpc_list@.len(),
        forall|i: int|
            0 <= i < workers@.len() ==> (#[trigger] workers@[i]).worker == started(
                rpc_list@[i],
                i as usize,
            ) && workers@[i].action@ == start_action(rpc_list@[i], i as usize),
{
    let nodes = rpc_list.snapshot();
    let mut workers: Vec<WorkerStart> = Vec::new();
    let mut index: usize = 0;
    while index < nodes.len()
        invariant
            index <= nodes.len(),
            nodes@.len() == rpc_list@.len(),
            forall|i: int| 0 <= i < nodes@.len() ==> nodes@[i]@ == rpc_list@[i],
            workers@.len() == index,
            forall|i: int|
                0 <= i < index ==> (#[trigger] workers@[i]).worker == started(
                    rpc_list@[i],
                    i as usize,
                ) && workers@[i].action@ == start_action(rpc_list@[i], i as usize),
        decreases nodes.len() - index,
    {
        let start = ws_conn(&nodes[index], index);
        workers.push(WorkerStart { worker: start.0, action: start.1 });
        index += 1;
    }
    workers
}

} // verus!
