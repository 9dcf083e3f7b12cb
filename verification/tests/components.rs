use serde_json::Value;
use ws_balancer::cache::{same_bytes, ResponseCache};
use ws_balancer::error::Error;
use ws_balancer::executor::{
    answers, error_reply_text, execute_ws_call, listen_for_response, serve_cached, CacheArgs,
    CallStep,
};
use ws_balancer::hash::{cache_key, KeyHash};
use ws_balancer::manager::{create_ws_vec, deliver_to, ws_conn_manager, Routing};
use ws_balancer::registry::{pick, Registry, Rpc};
use ws_balancer::subscriptions::SubscriptionData;
use ws_balancer::text_map::{TextMap, UserSet};
use ws_balancer::types::{IncomingResponse, WsChannelErr, WsconnMessage};
use ws_balancer::worker::{ws_conn, SocketEvent, Worker, WorkerAction, WorkerState};

fn json(text: &str) -> Value {
    serde_json::from_str(text).expect("valid JSON")
}

fn hex(bytes: &[u8]) -> String {
    bytes.iter().map(|b| format!("{:02x}", b)).collect()
}

fn node(url: &str, latency: Option<u64>) -> Rpc {
    let mut rpc = Rpc::new(Some(url.to_string()));
    rpc.latency = latency;
    rpc
}

#[test]
fn blake3_keys_are_the_documented_digests() {
    assert_eq!(
        hex(&cache_key(KeyHash::Blake3, b"")),
        "af1349b9f5f9a1a6a0404dea36dcc9499bcb25c9adc112b7cc9a93cae41f3262"
    );
    assert_eq!(
        hex(&cache_key(KeyHash::Blake3, b"abc")),
        "6437b3ac38465133ffb63b75273a8db548c558465d79db03fd359c6cd5bd9d85"
    );
    assert_eq!(cache_key(KeyHash::Blake3, b"abc").len(), 32);
}

#[test]
fn xxh3_keys_are_eight_little_endian_bytes() {
    assert_eq!(hex(&cache_key(KeyHash::Xxh3, b"")), "c294d338058006 2d".replace(' ', ""));
    let key = cache_key(KeyHash::Xxh3, b"abc");
    assert_eq!(key.len(), 8);
    assert_eq!(
        u64::from_le_bytes([key[0], key[1], key[2], key[3], key[4], key[5], key[6], key[7]]),
        0x78af5f94892f3950
    );
    assert_ne!(key, b"abc".to_vec());
}

#[test]
fn cache_get_put_replace() {
    let mut cache = ResponseCache::new();
    assert_eq!(cache.len(), 0);
    assert_eq!(cache.get(b"k1"), None);
    cache.put(b"k1".to_vec(), b"v1".to_vec());
    cache.put(b"k2".to_vec(), b"v2".to_vec());
    assert_eq!(cache.get(b"k1"), Some(b"v1".to_vec()));
    assert_eq!(cache.get(b"k2"), Some(b"v2".to_vec()));
    assert_eq!(cache.get(b"k"), None);
    cache.put(b"k1".to_vec(), b"v3".to_vec());
    assert_eq!(cache.get(b"k1"), Some(b"v3".to_vec()));
    assert_eq!(cache.len(), 2);
    cache.put(b"k1".to_vec(), b"v3".to_vec());
    assert_eq!(cache.len(), 2);
}

#[test]
fn same_bytes_compares_content() {
    assert!(same_bytes(b"", b""));
    assert!(same_bytes(b"abc", b"abc"));
    assert!(!same_bytes(b"abc", b"abd"));
    assert!(!same_bytes(b"abc", b"ab"));
}

#[test]
fn unreadable_cache_entries_count_as_misses() {
    let call = json(r#"{"method":"eth_blockNumber","params":[],"id":1}"#);
    let mut normal = call.clone();
    normal["id"] = Value::Null;
    let key = cache_key(KeyHash::Xxh3, normal.to_string().as_bytes());
    let id = json("1");

    let mut cache = ResponseCache::new();
    assert_eq!(serve_cached(&cache, &key, &id), Ok(None));
    cache.put(key.clone(), b"{not json".to_vec());
    assert_eq!(serve_cached(&cache, &key, &id), Err(Error::CacheUnavailable));
    cache.put(key.clone(), b"[1,2]".to_vec());
    assert_eq!(serve_cached(&cache, &key, &id), Err(Error::CacheUnavailable));

    let mut subs = SubscriptionData::new();
    let mut cache_args = CacheArgs { cache, hash: KeyHash::Xxh3 };
    assert!(matches!(
        execute_ws_call(call.clone(), 3, &mut subs, &cache_args),
        CallStep::Forward { substitute: true, .. }
    ));
    cache_args.cache.put(key.clone(), br#"{"id":null,"result":"0x2"}"#.to_vec());
    match execute_ws_call(call, 3, &mut subs, &cache_args) {
        CallStep::Reply { text, teardown } => {
            assert!(teardown.is_none());
            assert_eq!(text, r#"{"id":1,"result":"0x2"}"#);
        }
        _ => panic!("a readable entry is a hit"),
    }
}

#[test]
fn keys_do_not_depend_on_the_callers_id() {
    let mut subs = SubscriptionData::new();
    let mut cache_args = CacheArgs { cache: ResponseCache::new(), hash: KeyHash::Blake3 };
    let first = json(r#"{"jsonrpc":"2.0","method":"eth_getBalance","params":["0x1"],"id":"a"}"#);
    let pending = match execute_ws_call(first, 9, &mut subs, &cache_args) {
        CallStep::Forward { pending, .. } => pending,
        _ => panic!("a miss goes upstream"),
    };
    let response = IncomingResponse {
        node_id: 3,
        content: json(r#"{"jsonrpc":"2.0","id":9,"result":"0x64"}"#),
    };
    let reply = pending.on_response(response, &mut subs, &mut cache_args).expect("a reply");
    assert_eq!(json(&reply), json(r#"{"jsonrpc":"2.0","id":"a","result":"0x64"}"#));
    // No id at all, and members in another order: still the same request.
    let second = json(r#"{"params":["0x1"],"method":"eth_getBalance","jsonrpc":"2.0"}"#);
    match execute_ws_call(second, 10, &mut subs, &cache_args) {
        CallStep::Reply { text, .. } => {
            assert_eq!(json(&text), json(r#"{"jsonrpc":"2.0","id":null,"result":"0x64"}"#))
        }
        _ => panic!("the second call is served from the cache"),
    }
    // Another parameter is another request.
    let third = json(r#"{"jsonrpc":"2.0","method":"eth_getBalance","params":["0x2"],"id":"a"}"#);
    assert!(matches!(
        execute_ws_call(third, 11, &mut subs, &cache_args),
        CallStep::Forward { .. }
    ));
}

#[test]
fn error_responses_are_not_cached() {
    let mut subs = SubscriptionData::new();
    let mut cache_args = CacheArgs { cache: ResponseCache::new(), hash: KeyHash::Blake3 };
    let call = json(r#"{"jsonrpc":"2.0","method":"eth_call","params":[],"id":1}"#);
    let pending = match execute_ws_call(call.clone(), 5, &mut subs, &cache_args) {
        CallStep::Forward { pending, .. } => pending,
        _ => panic!("a miss goes upstream"),
    };
    let other = IncomingResponse { node_id: 0, content: json(r#"{"id":6,"result":"0x0"}"#) };
    assert_eq!(pending.on_response(other, &mut subs, &mut cache_args), None);
    let text_id = IncomingResponse { node_id: 0, content: json(r#"{"id":"5","result":"0x0"}"#) };
    assert_eq!(pending.on_response(text_id, &mut subs, &mut cache_args), None);
    let failed = IncomingResponse {
        node_id: 0,
        content: json(r#"{"id":5,"error":{"code":-32000,"message":"execution reverted"}}"#),
    };
    let reply = pending.on_response(failed, &mut subs, &mut cache_args).expect("a reply");
    assert_eq!(
        json(&reply),
        json(r#"{"id":1,"error":{"code":-32000,"message":"execution reverted"}}"#)
    );
    assert_eq!(cache_args.cache.len(), 0);
    assert!(matches!(
        execute_ws_call(call, 7, &mut subs, &cache_args),
        CallStep::Forward { .. }
    ));
}

#[test]
fn calls_that_are_no_objects_are_refused() {
    let mut subs = SubscriptionData::new();
    let cache_args = CacheArgs { cache: ResponseCache::new(), hash: KeyHash::Blake3 };
    for call in [json("[1,2]"), json("\"eth_blockNumber\""), json("7"), json("true")] {
        match execute_ws_call(call, 1, &mut subs, &cache_args) {
            CallStep::Reply { text, teardown } => {
                assert!(teardown.is_none());
                assert_eq!(
                    text,
                    r#"{"jsonrpc":"2.0","id":null,"error":{"code":-32600,"message":"Invalid Request"}}"#
                );
                assert_eq!(json(&text)["error"]["code"], -32600);
            }
            _ => panic!("only objects are calls"),
        }
    }
    // `null` counts as the empty object and goes upstream as `{"id":<user>}`.
    match execute_ws_call(Value::Null, 4, &mut subs, &cache_args) {
        CallStep::Forward { request, pending, .. } => {
            assert_eq!(request, json(r#"{"id":null}"#));
            match pending.stamp(request) {
                Ok(WsconnMessage::Message(v)) => assert_eq!(v, json(r#"{"id":4}"#)),
                _ => panic!("an object can be stamped"),
            }
            assert!(matches!(pending.stamp(json("[]")), Err(Error::MalformedRequest)));
        }
        _ => panic!("null goes upstream"),
    }
}

#[test]
fn unsubscribe_needs_a_string_parameter() {
    let mut subs = SubscriptionData::new();
    let cache_args = CacheArgs { cache: ResponseCache::new(), hash: KeyHash::Blake3 };
    for params in ["[7]", "{}", "[[\"0xSUB\"]]", "null"] {
        let call = json(&format!(
            r#"{{"jsonrpc":"2.0","method":"eth_unsubscribe","params":{},"id":3}}"#,
            params
        ));
        match execute_ws_call(call, 1, &mut subs, &cache_args) {
            CallStep::Reply { text, teardown } => {
                assert!(teardown.is_none());
                assert_eq!(json(&text)["error"]["code"], -32602);
                assert_eq!(json(&text)["id"], 3);
            }
            _ => panic!("a bad unsubscribe is answered at once"),
        }
    }
    // An unknown subscription is no error: there is nothing to leave.
    let call = json(r#"{"method":"eth_unsubscribe","params":["0xNONE"],"id":3}"#);
    match execute_ws_call(call, 1, &mut subs, &cache_args) {
        CallStep::Reply { text, teardown } => {
            assert!(teardown.is_none());
            assert_eq!(text, r#"{"jsonrpc":"2.0","id":3,"result":true}"#);
        }
        _ => panic!("an unsubscribe is answered at once"),
    }
}

#[test]
fn error_replies_quote_their_parts() {
    let id = json(r#""a\"b""#);
    assert_eq!(
        error_reply_text(&id, Error::CorrelationTimeout),
        r#"{"jsonrpc":"2.0","id":"a\"b","error":{"code":-32000,"message":"Failed to receive response from WS"}}"#
    );
    assert_eq!(
        json(&error_reply_text(&json("[1]"), Error::RoutingUnavailable))["error"]["message"],
        "no upstream node available"
    );
}

#[test]
fn every_error_has_its_message() {
    assert_eq!(Error::RoutingUnavailable.message(), "no upstream node available");
    assert_eq!(Error::WorkerClosed(3).message(), "upstream connection closed");
    assert_eq!(Error::CorrelationTimeout.message(), "Failed to receive response from WS");
    assert_eq!(Error::MalformedRequest.message(), "Bad Subscription ID!");
    assert_eq!(Error::CacheUnavailable.message(), "cache unavailable");
    assert_eq!(Error::SubscriptionDedupLoss.message(), "subscription already in flight");
    assert_eq!(Error::SubscriptionMissing.message(), "not subscribed upstream");
}

#[test]
fn listen_takes_the_first_response_with_the_id() {
    let received = vec![
        IncomingResponse { node_id: 0, content: json(r#"{"id":1,"result":"a"}"#) },
        IncomingResponse { node_id: 1, content: json(r#"{"result":"none"}"#) },
        IncomingResponse { node_id: 2, content: json(r#"{"id":2,"result":"b"}"#) },
        IncomingResponse { node_id: 3, content: json(r#"{"id":2,"result":"c"}"#) },
        IncomingResponse { node_id: 4, content: json(r#"[2]"#) },
    ];
    assert_eq!(listen_for_response(2, &received), Ok(json(r#"{"id":2,"result":"b"}"#)));
    assert_eq!(listen_for_response(1, &received), Ok(json(r#"{"id":1,"result":"a"}"#)));
    assert_eq!(listen_for_response(3, &received), Err(Error::CorrelationTimeout));
    assert_eq!(listen_for_response(1, &Vec::new()), Err(Error::CorrelationTimeout));
    assert!(answers(2, &json(r#"{"id":2}"#)));
    assert!(!answers(2, &json(r#"{"id":2.5}"#)));
    assert!(!answers(2, &json(r#"{"id":-2}"#)));
    assert!(!answers(2, &json(r#"{"id":"2"}"#)));
    assert!(!answers(0, &json(r#"{}"#)));
}

#[test]
fn table_walks_through_a_subscription() {
    let mut subs = SubscriptionData::new();
    let request = "{\"method\":\"eth_subscribe\"}".to_string();
    assert_eq!(subs.subscribe_user(1, request.clone()), Err(Error::SubscriptionMissing));
    assert_eq!(subs.subscribe_user(2, request.clone()), Err(Error::SubscriptionDedupLoss));
    assert_eq!(subs.subscribe_user(1, request.clone()), Err(Error::SubscriptionDedupLoss));
    assert_eq!(subs.lookup(&request), None);
    assert!(!subs.register_subscription("other".to_string(), "0x1".to_string(), 0));
    assert!(subs.register_subscription(request.clone(), "0x1".to_string(), 4));
    assert!(!subs.register_subscription(request.clone(), "0x2".to_string(), 4));
    assert_eq!(subs.lookup(&request), Some(("0x1".to_string(), 4)));
    assert_eq!(subs.subscribers(&"0x1".to_string()), vec![1]);
    assert_eq!(subs.subscribe_user(2, request.clone()), Ok("0x1".to_string()));
    assert_eq!(subs.subscribe_user(2, request.clone()), Ok("0x1".to_string()));
    assert_eq!(subs.subscribers(&"0x1".to_string()), vec![1, 2]);
    assert_eq!(subs.subscribers(&"0x9".to_string()), Vec::<u64>::new());
    assert_eq!(subs.unsubscribe_user(3, "0x1".to_string()), None);
    assert_eq!(subs.unsubscribe_user(1, "0x9".to_string()), None);
    assert_eq!(subs.unsubscribe_user(1, "0x1".to_string()), None);
    assert_eq!(subs.subscribers(&"0x1".to_string()), vec![2]);
    assert_eq!(subs.unsubscribe_user(2, "0x1".to_string()), Some(4));
    assert_eq!(subs.lookup(&request), None);
    assert_eq!(subs.subscribers(&"0x1".to_string()), Vec::<u64>::new());
    assert_eq!(subs.subscribe_user(2, request), Err(Error::SubscriptionMissing));
}

#[test]
fn an_upstream_id_belongs_to_one_request() {
    let mut subs = SubscriptionData::new();
    assert_eq!(subs.subscribe_user(1, "a".to_string()), Err(Error::SubscriptionMissing));
    assert_eq!(subs.subscribe_user(2, "b".to_string()), Err(Error::SubscriptionMissing));
    assert!(subs.register_subscription("a".to_string(), "0x1".to_string(), 0));
    assert!(!subs.register_subscription("b".to_string(), "0x1".to_string(), 1));
    assert_eq!(subs.lookup(&"b".to_string()), None);
    // The failed attempt is no longer in flight.
    assert_eq!(subs.subscribe_user(3, "b".to_string()), Err(Error::SubscriptionMissing));
    subs.abandon_subscription(2, &"b".to_string());
    assert_eq!(subs.subscribe_user(4, "b".to_string()), Err(Error::SubscriptionDedupLoss));
    subs.abandon_subscription(3, &"b".to_string());
    assert_eq!(subs.subscribe_user(4, "b".to_string()), Err(Error::SubscriptionMissing));
}

#[test]
fn text_map_and_user_set() {
    let mut map: TextMap<u64> = TextMap::new();
    assert_eq!(map.get(&"a".to_string()), None);
    map.insert("a".to_string(), 1);
    map.insert("b".to_string(), 2);
    map.insert("a".to_string(), 3);
    assert_eq!(map.get(&"a".to_string()), Some(&3));
    assert!(map.contains_key(&"b".to_string()));
    assert_eq!(map.remove(&"a".to_string()), Some(3));
    assert_eq!(map.remove(&"a".to_string()), None);
    assert_eq!(map.get(&"b".to_string()), Some(&2));

    let mut users = UserSet::new();
    assert!(users.is_empty());
    users.insert(5);
    users.insert(6);
    users.insert(5);
    assert_eq!(users.to_vec(), vec![5, 6]);
    assert!(users.contains(6));
    users.remove(5);
    users.remove(7);
    assert_eq!(users.to_vec(), vec![6]);
    users.remove(6);
    assert!(users.is_empty());
}

#[test]
fn selector_prefers_low_latency_then_low_index() {
    let mut registry = Registry::new();
    let (none, position) = pick(&registry);
    assert_eq!(position, None);
    assert_eq!(none.ws_url, None);

    registry.replace(vec![
        node("ws://a", Some(30)),
        node("ws://b", Some(10)),
        node("ws://c", Some(10)),
        node("ws://d", Some(20)),
    ]);
    assert_eq!(registry.len(), 4);
    let (chosen, position) = pick(&registry);
    assert_eq!(position, Some(1));
    assert_eq!(chosen.index, 1);
    assert_eq!(chosen.ws_url.as_deref(), Some("ws://b"));
    // A node without a sample is not held back by it.
    registry.replace(vec![node("ws://a", Some(1)), node("ws://b", None), node("ws://c", None)]);
    assert_eq!(pick(&registry).1, Some(1));
    registry.update_latency(1, 5);
    assert_eq!(pick(&registry).1, Some(2));
    registry.update_latency(2, 1);
    assert_eq!(pick(&registry).1, Some(0));
    registry.update_latency(0, 0);
    assert_eq!(pick(&registry).1, Some(0));
}

#[test]
fn registry_keeps_indices_dense() {
    let mut registry = Registry::new();
    assert_eq!(registry.generation(), 0);
    let mut stray = node("ws://a", None);
    stray.index = 17;
    registry.replace(vec![stray, node("ws://b", Some(3))]);
    assert_eq!(registry.generation(), 1);
    let copy = registry.snapshot();
    assert_eq!(copy.len(), 2);
    assert_eq!((copy[0].index, copy[1].index), (0, 1));
    assert_eq!(copy[1].latency, Some(3));
    registry.update_latency(1, 8);
    registry.update_latency(2, 9);
    registry.set_health(0, false);
    let copy = registry.snapshot();
    assert_eq!(copy[0].latency, None);
    assert_eq!(copy[1].latency, Some(8));
    assert!(!copy[0].healthy);
    assert!(copy[1].healthy);
    assert_eq!(registry.generation(), 1);
    assert_eq!(registry.node(1).map(|n| n.index), Some(1));
    assert!(registry.node(2).is_none());
    registry.replace(Vec::new());
    assert_eq!(registry.generation(), 2);
    assert_eq!(registry.len(), 0);
}

#[test]
fn workers_start_by_their_url() {
    let (worker, action) = ws_conn(&node("ws://localhost:8546", None), 2);
    assert_eq!(worker, Worker { index: 2, state: WorkerState::Connecting, outstanding: None });
    match action {
        WorkerAction::Connect(url) => assert_eq!(url, "ws://localhost:8546"),
        _ => panic!("a node with a URL connects"),
    }
    let (worker, action) = ws_conn(&node("not a url", None), 3);
    assert_eq!(worker.state, WorkerState::Closed);
    assert!(matches!(action, WorkerAction::Report(WsChannelErr::Closed(3))));
    let (worker, action) = ws_conn(&Rpc::new(None), 4);
    assert_eq!(worker.state, WorkerState::Closed);
    assert!(matches!(action, WorkerAction::Report(WsChannelErr::Closed(4))));

    let mut registry = Registry::new();
    registry.replace(vec![node("ws://a.example", None), Rpc::new(None)]);
    let starts = create_ws_vec(&registry);
    assert_eq!(starts.len(), 2);
    assert_eq!(starts[0].worker.index, 0);
    assert_eq!(starts[0].worker.state, WorkerState::Connecting);
    assert_eq!(starts[1].worker.index, 1);
    assert_eq!(starts[1].worker.state, WorkerState::Closed);
}

#[test]
fn worker_connects_or_closes() {
    let mut worker = Worker { index: 1, state: WorkerState::Connecting, outstanding: None };
    assert!(matches!(
        worker.on_outbound(json(r#"{"id":1}"#), 0),
        WorkerAction::Hold(_)
    ));
    assert!(matches!(worker.on_connected(false), WorkerAction::Report(WsChannelErr::Closed(1))));
    assert_eq!(worker.state, WorkerState::Closed);
    assert!(matches!(worker.on_connected(true), WorkerAction::Idle));
    assert_eq!(worker.state, WorkerState::Closed);
    let mut registry = Registry::new();
    assert!(matches!(worker.on_frame(b"{}", 1, &mut registry), WorkerAction::Discard));
}

#[test]
fn worker_pairs_requests_with_responses() {
    let mut registry = Registry::new();
    registry.replace(vec![node("ws://a", None), node("ws://b", None)]);
    let mut worker = Worker { index: 1, state: WorkerState::Ready, outstanding: None };
    match worker.on_outbound(json(r#"{"method":"eth_blockNumber","id":8}"#), 100) {
        WorkerAction::Send(frame) => assert_eq!(frame, r#"{"id":8,"method":"eth_blockNumber"}"#),
        _ => panic!("a ready worker writes"),
    }
    assert_eq!(worker.outstanding.map(|o| (o.id, o.sent_at)), Some((Some(8), 100)));
    match worker.on_outbound(json(r#"{"id":9}"#), 101) {
        WorkerAction::Hold(message) => assert_eq!(message, json(r#"{"id":9}"#)),
        _ => panic!("one request at a time"),
    }
    // A notification in between goes to its subscription.
    let note = br#"{"jsonrpc":"2.0","method":"eth_subscription","params":{"subscription":"0xSUB","result":{"number":"0x1"}},"id":8}"#;
    match worker.on_frame(note, 150, &mut registry) {
        WorkerAction::Notify { upstream_id, content } => {
            assert_eq!(upstream_id, "0xSUB");
            assert_eq!(content["params"]["result"]["number"], "0x1");
        }
        _ => panic!("a notification is dispatched"),
    }
    // A response to something else is no response to this request.
    assert!(matches!(
        worker.on_frame(br#"{"id":7,"result":1}"#, 160, &mut registry),
        WorkerAction::Discard
    ));
    assert!(worker.outstanding.is_some());
    assert_eq!(registry.snapshot()[1].latency, None);
    match worker.on_frame(br#"{"id":8,"result":"0x5"}"#, 350, &mut registry) {
        WorkerAction::Broadcast(response) => {
            assert_eq!(response.node_id, 1);
            assert_eq!(response.content, json(r#"{"id":8,"result":"0x5"}"#));
        }
        _ => panic!("the response is broadcast"),
    }
    assert_eq!(worker.outstanding, None);
    let copy = registry.snapshot();
    assert_eq!(copy[1].latency, Some(250));
    assert_eq!(copy[0].latency, None);
    // A clock that ran backwards counts as no time at all.
    assert!(matches!(worker.on_outbound(json(r#"{"id":"x"}"#), 500), WorkerAction::Send(_)));
    assert_eq!(worker.outstanding.map(|o| o.id), Some(None));
    assert!(matches!(
        worker.on_frame(br#"{"id":"x","result":null}"#, 400, &mut registry),
        WorkerAction::Broadcast(_)
    ));
    assert_eq!(registry.snapshot()[1].latency, Some(0));
}

#[test]
fn worker_closes_on_request_and_on_garbage() {
    let mut registry = Registry::new();
    let mut worker = Worker { index: 0, state: WorkerState::Ready, outstanding: None };
    assert!(matches!(
        worker.on_outbound(json(r#"{"method":"close"}"#), 5),
        WorkerAction::Close
    ));
    assert_eq!(worker.state, WorkerState::Closed);
    assert!(matches!(worker.on_failure(), WorkerAction::Idle));

    let mut worker = Worker { index: 6, state: WorkerState::Ready, outstanding: None };
    assert!(matches!(
        worker.on_frame(b"certainly not json", 5, &mut registry),
        WorkerAction::Report(WsChannelErr::Closed(6))
    ));
    assert_eq!(worker.state, WorkerState::Closed);
    assert!(matches!(
        worker.on_frame(br#"{"id":1}"#, 6, &mut registry),
        WorkerAction::Discard
    ));
}

#[test]
fn manager_drops_what_it_cannot_deliver() {
    let mut registry = Registry::new();
    registry.replace(vec![node("ws://a", Some(2)), node("ws://b", Some(1))]);
    let call = || WsconnMessage::Message(json(r#"{"id":1}"#));
    let full: Vec<Option<u8>> = vec![Some(0), Some(1)];
    match ws_conn_manager(&registry, &full, call()) {
        Routing::Deliver { worker, payload } => {
            assert_eq!(worker, 1);
            assert_eq!(payload, json(r#"{"id":1}"#));
        }
        _ => panic!("the call was not delivered"),
    }
    let absent: Vec<Option<u8>> = vec![Some(0), None];
    assert!(matches!(
        ws_conn_manager(&registry, &absent, call()),
        Routing::Dropped(Error::RoutingUnavailable)
    ));
    let short: Vec<Option<u8>> = vec![Some(0)];
    assert!(matches!(
        ws_conn_manager(&registry, &short, call()),
        Routing::Dropped(Error::RoutingUnavailable)
    ));
    assert!(matches!(
        ws_conn_manager(&registry, &short, WsconnMessage::Reconnect()),
        Routing::Rebuild
    ));
    assert!(matches!(deliver_to(&absent, 0, json("1")), Routing::Deliver { worker: 0, .. }));
    assert!(matches!(deliver_to(&absent, 1, json("1")), Routing::Dropped(_)));
    assert!(matches!(deliver_to(&absent, 2, json("1")), Routing::Dropped(_)));
}

#[test]
fn subscribe_without_a_result_is_given_up() {
    let mut subs = SubscriptionData::new();
    let mut cache_args = CacheArgs { cache: ResponseCache::new(), hash: KeyHash::Blake3 };
    let call = json(r#"{"method":"eth_subscribe","params":["logs"],"id":1}"#);
    let pending = match execute_ws_call(call.clone(), 20, &mut subs, &cache_args) {
        CallStep::Forward { pending, substitute, .. } => {
            assert!(!substitute);
            pending
        }
        _ => panic!("the first subscriber goes upstream"),
    };
    let refused = IncomingResponse {
        node_id: 0,
        content: json(r#"{"id":20,"error":{"code":-32601,"message":"no"}}"#),
    };
    let reply = pending.on_response(refused, &mut subs, &mut cache_args).expect("a reply");
    assert_eq!(json(&reply)["id"], 1);
    assert_eq!(json(&reply)["error"]["code"], -32601);
    assert_eq!(cache_args.cache.len(), 0);
    assert!(matches!(
        execute_ws_call(call, 21, &mut subs, &cache_args),
        CallStep::Forward { .. }
    ));
}

#[test]
fn notifications_reach_the_users_of_their_subscription() {
    let mut subs = SubscriptionData::new();
    assert_eq!(subs.subscribe_user(1, "heads".to_string()), Err(Error::SubscriptionMissing));
    assert!(subs.register_subscription("heads".to_string(), "0xA".to_string(), 0));
    assert_eq!(subs.subscribe_user(2, "heads".to_string()), Ok("0xA".to_string()));
    let note = json(
        r#"{"jsonrpc":"2.0","method":"eth_subscription","params":{"subscription":"0xA","result":1}}"#,
    );
    assert_eq!(subs.dispatch(&note), vec![1, 2]);
    assert_eq!(subs.unsubscribe_user(1, "0xA".to_string()), None);
    assert_eq!(subs.dispatch(&note), vec![2]);
    let other = json(r#"{"method":"eth_subscription","params":{"subscription":"0xB"}}"#);
    assert_eq!(subs.dispatch(&other), Vec::<u64>::new());
    assert_eq!(subs.dispatch(&json(r#"{"params":["0xA"]}"#)), Vec::<u64>::new());
    assert_eq!(subs.dispatch(&json(r#"{"params":{"subscription":7}}"#)), Vec::<u64>::new());
    assert_eq!(subs.unsubscribe_user(2, "0xA".to_string()), Some(0));
    assert_eq!(subs.dispatch(&note), Vec::<u64>::new());
}

#[test]
fn socket_events_reach_the_worker() {
    let mut registry = Registry::new();
    registry.replace(vec![node("ws://a", None)]);
    let mut worker = Worker { index: 0, state: WorkerState::Connecting, outstanding: None };
    assert!(!worker.accepts_outbound());
    worker.on_connected(true);
    assert!(worker.accepts_outbound());
    assert!(matches!(worker.on_outbound(json(r#"{"id":4}"#), 10), WorkerAction::Send(_)));
    assert!(!worker.accepts_outbound());
    assert!(matches!(
        worker.on_socket(SocketEvent::Control, 11, &mut registry),
        WorkerAction::Idle
    ));
    assert!(worker.outstanding.is_some());
    match worker.on_socket(SocketEvent::Document(br#"{"id":4,"result":1}"#.to_vec()), 17, &mut registry) {
        WorkerAction::Broadcast(response) => assert_eq!(response.content["result"], 1),
        _ => panic!("the response is broadcast"),
    }
    assert!(worker.accepts_outbound());
    assert_eq!(registry.snapshot()[0].latency, Some(7));
    assert!(matches!(
        worker.on_socket(SocketEvent::Ended, 18, &mut registry),
        WorkerAction::Report(WsChannelErr::Closed(0))
    ));
    assert!(!worker.accepts_outbound());
    assert!(matches!(
        worker.on_socket(SocketEvent::Ended, 19, &mut registry),
        WorkerAction::Idle
    ));
}
