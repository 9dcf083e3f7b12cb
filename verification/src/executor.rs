//! The call executor: what happens to one JSON-RPC call of one user.
//!
//! A call is answered from the cache or from the subscription table where
//! that is possible. Otherwise it goes upstream under a synthetic id, the
//! user id, and the response that carries this id is handed back under the
//! caller's own id. The executor never waits: [`execute_ws_call`] says what
//! to do with a call, and [`PendingCall::on_response`] and
//! [`PendingCall::on_timeout`] say what to do with what came back.
use crate::cache::ResponseCache;
use crate::error::Error;
use crate::hash::{cache_key, digest, KeyHash};
use crate::json::{
    get_element, get_member, json_model, json_parse, json_text, kind_of, null_value, number,
    number_of, parse, put_member, render, take_member, text, text_of, Json, JsonKind, JsonNumber,
};
use crate::subscriptions::{SubscriptionData, Table};
use crate::types::{IncomingResponse, Outbound, WsconnMessage};
use serde_json::Value;
use vstd::prelude::*;
use vstd::string::{StrSliceExecFns, StringExecFns};
use vstd::utf8::encode_utf8;

verus! {

/// The response cache and how its keys are made.
pub struct CacheArgs {
    pub cache: ResponseCache,
    pub hash: KeyHash,
}

/// A call with its `id` set to `Null`: what is hashed and fingerprinted, so
/// that the caller's id does not tell two equal requests apart.
pub open spec fn normalised(call: Json) -> Json {
    call.with_member("id"@, Json::Null)
}

/// The canonical text of a call, by which subscriptions are deduplicated.
pub open spec fn fingerprint(call: Json) -> Seq<char> {
    json_text(normalised(call))
}

/// The cache key of a call.
pub open spec fn key_of(hash: KeyHash, call: Json) -> Seq<u8> {
    digest(hash, encode_utf8(fingerprint(call)))
}

/// The method of a request, where it names one.
pub open spec fn method_of(request: Json) -> Option<Seq<char>> {
    request.field("method"@).as_text()
}

/// The first parameter of a request, where it is a string.
pub open spec fn first_param(request: Json) -> Option<Seq<char>> {
    match request.field("params"@).element(0) {
        Some(p) => p.as_text(),
        None => None,
    }
}

/// A request under the synthetic id `user_id`.
pub open spec fn stamped(request: Json, user_id: u64) -> Json {
    request.with_member("id"@, Json::Number(JsonNumber::Unsigned(user_id)))
}

/// Whether `content` answers the call that went out under `user_id`.
pub open spec fn is_reply_to(content: Json, user_id: u64) -> bool {
    content.field("id"@) == Json::Number(JsonNumber::Unsigned(user_id))
}

/// Whether a response may be cached: it must not report an error.
pub open spec fn cacheable(content: Json) -> bool {
    content.member("error"@) is None
}

/// The bytes under which a response is cached: its text with the id set to `Null`.
pub open spec fn cache_form(content: Json) -> Seq<u8> {
    encode_utf8(json_text(normalised(content)))
}

/// The text of a successful reply to the caller's `id`.
pub open spec fn result_reply(id: Json, result: Seq<char>) -> Seq<char> {
    "{\"jsonrpc\":\"2.0\",\"id\":"@ + json_text(id) + ",\"result\":"@ + result + "}"@
}

/// The JSON-RPC error code for an error.
pub open spec fn error_code(e: Error) -> Seq<char> {
    match e {
        Error::MalformedRequest => "-32602"@,
        _ => "-32000"@,
    }
}

/// The text of an error reply to the caller's `id`.
pub open spec fn error_reply(id: Json, e: Error) -> Seq<char> {
    "{\"jsonrpc\":\"2.0\",\"id\":"@ + json_text(id) + ",\"error\":{\"code\":"@ + error_code(e)
        + ",\"message\":"@ + json_text(Json::Text(e.spec_message())) + "}}"@
}

/// The reply to a call that is no request at all: it has no id to answer to.
pub open spec fn invalid_request_reply() -> Seq<char> {
    "{\"jsonrpc\":\"2.0\",\"id\":null,\"error\":{\"code\":-32600,\"message\":\"Invalid Request\"}}"@
}

/// The reply that stored bytes give to the caller's `id`: the stored
/// document with its `id` set. `None` where the bytes are no JSON document
/// that can take members.
pub open spec fn cached_reply(stored: Seq<u8>, id: Json) -> Option<Seq<char>> {
    match json_parse(stored) {
        Some(doc) => if doc.takes_members() {
            Some(json_text(doc.with_member("id"@, id)))
        } else {
            None
        },
        None => None,
    }
}

/// The reply that the cache gives to a call, if it gives one.
pub open spec fn cache_hit(cache: Map<Seq<u8>, Seq<u8>>, key: Seq<u8>, id: Json) -> Option<
    Seq<char>,
> {
    if cache.contains_key(key) {
        cached_reply(cache[key], id)
    } else {
        None
    }
}

/// A request to cancel an upstream subscription.
pub struct Teardown {
    /// The worker that owns the upstream subscription.
    pub node_id: usize,
    /// The `eth_unsubscribe` request to send it.
    pub message: Value,
}

/// The content of a [`Teardown`].
pub struct TeardownView {
    pub node_id: usize,
    pub message: Json,
}

impl View for Teardown {
    type V = TeardownView;

    open spec fn view(&self) -> TeardownView {
        TeardownView { node_id: self.node_id, message: json_model(self.message) }
    }
}

/// A call that went upstream and waits for its response.
pub struct PendingCall {
    user_id: u64,
    id: Value,
    key: Vec<u8>,
    fingerprint: String,
    subscription: bool,
}

/// The content of a [`PendingCall`].
pub struct Pending {
    /// The synthetic id under which the call went out.
    pub user_id: u64,
    /// The caller's own id.
    pub id: Json,
    /// The cache key of the call.
    pub key: Seq<u8>,
    /// The fingerprint of the call.
    pub fingerprint: Seq<char>,
    /// Whether the call is an `eth_subscribe`.
    pub subscription: bool,
}

impl View for PendingCall {
    type V = Pending;

    closed spec fn view(&self) -> Pending {
        Pending {
            user_id: self.user_id,
            id: json_model(self.id),
            key: self.key@,
            fingerprint: self.fingerprint@,
            subscription: self.subscription,
        }
    }
}

/// What to do with a call.
pub enum CallStep {
    /// Answer the caller with `text`. Where `teardown` is set, an upstream
    /// subscription lost its last user and has to be cancelled.
    Reply { text: String, teardown: Option<Teardown> },
    /// Send `request` upstream: apply the block-tag substitution to it where
    /// `substitute` says so, stamp it with [`PendingCall::stamp`], queue it,
    /// and feed the broadcast responses to `pending`.
    Forward { request: Value, substitute: bool, pending: PendingCall },
    /// Another call is subscribing to the same request: check again later.
    Retry,
}

/// The content of a [`CallStep`].
pub enum Outcome {
    Reply { text: Seq<char>, teardown: Option<TeardownView> },
    Forward { request: Json, substitute: bool, pending: Pending },
    Retry,
}

impl View for CallStep {
    type V = Outcome;

    open spec fn view(&self) -> Outcome {
        match self {
            CallStep::Reply { text, teardown } => Outcome::Reply {
                text: text@,
                teardown: match teardown {
                    Some(t) => Some(t@),
                    None => None,
                },
            },
            CallStep::Forward { request, substitute, pending } => Outcome::Forward {
                request: json_model(*request),
                substitute: *substitute,
                pending: pending@,
            },
            CallStep::Retry => Outcome::Retry,
        }
    }
}

/// What an `eth_unsubscribe` request leads to.
pub open spec fn unsubscribe_outcome(
    request: Json,
    id: Json,
    user_id: u64,
    table: Table,
) -> Outcome {
    match first_param(request) {
        Some(upstream_id) => Outcome::Reply {
            text: result_reply(id, "true"@),
            teardown: match table.teardown(user_id, upstream_id) {
                Some(node_id) => Some(
                    TeardownView { node_id, message: stamped(request, user_id) },
                ),
                None => None,
            },
        },
        None => Outcome::Reply { text: error_reply(id, Error::MalformedRequest), teardown: None },
    }
}

/// What an `eth_subscribe` request leads to.
pub open spec fn subscribe_outcome(request: Json, pending: Pending, table: Table) -> Outcome {
    match table.subscribe_result(pending.fingerprint) {
        Ok(upstream_id) => Outcome::Reply {
            text: result_reply(pending.id, json_text(Json::Text(upstream_id))),
            teardown: None,
        },
        Err(e) => if e == Error::SubscriptionMissing {
            Outcome::Forward { request, substitute: false, pending }
        } else {
            Outcome::Retry
        },
    }
}

/// What a call leads to, given the subscription table and the cache.
pub open spec fn outcome(
    call: Json,
    user_id: u64,
    table: Table,
    cache: Map<Seq<u8>, Seq<u8>>,
    hash: KeyHash,
) -> Outcome {
    if !call.takes_members() {
        Outcome::Reply { text: invalid_request_reply(), teardown: None }
    } else {
        let id = call.field("id"@);
        let request = normalised(call);
        let key = key_of(hash, call);
        if cache_hit(cache, key, id) is Some {
            Outcome::Reply { text: cache_hit(cache, key, id)->0, teardown: None }
        } else if method_of(request) == Some("eth_unsubscribe"@) {
            unsubscribe_outcome(request, id, user_id, table)
        } else if method_of(request) == Some("eth_subscribe"@) {
            subscribe_outcome(
                request,
                Pending { user_id, id, key, fingerprint: fingerprint(call), subscription: true },
                table,
            )
        } else {
            Outcome::Forward {
                request,
                substitute: true,
                pending: Pending {
                    user_id,
                    id,
                    key,
                    fingerprint: fingerprint(call),
                    subscription: false,
                },
            }
        }
    }
}

/// The subscription table after a call.
pub open spec fn table_after(
    call: Json,
    user_id: u64,
    table: Table,
    cache: Map<Seq<u8>, Seq<u8>>,
    hash: KeyHash,
) -> Table {
    if !call.takes_members() || cache_hit(cache, key_of(hash, call), call.field("id"@)) is Some {
        table
    } else if method_of(normalised(call)) == Some("eth_unsubscribe"@) {
        match first_param(normalised(call)) {
            Some(upstream_id) => table.unsubscribe(user_id, upstream_id),
            None => table,
        }
    } else if method_of(normalised(call)) == Some("eth_subscribe"@) {
        table.subscribe(user_id, fingerprint(call))
    } else {
        table
    }
}

/// The text of a successful reply.
fn result_reply_text(id: &Value, result: &str) -> (reply: String)
    ensures
        reply@ == result_reply(json_model(*id), result@),
{
    let mut reply = String::from_str("{\"jsonrpc\":\"2.0\",\"id\":");
    let id_text = render(id);
    reply.append(id_text.as_str());
    reply.append(",\"result\":");
    reply.append(result);
    reply.append("}");
    reply
}

/// The text of an error reply.
pub fn error_reply_text(id: &Value, e: Error) -> (reply: String)
    ensures
        reply@ == error_reply(json_model(*id), e),
{
    let mut reply = String::from_str("{\"jsonrpc\":\"2.0\",\"id\":");
    let id_text = render(id);
    reply.append(id_text.as_str());
    reply.append(",\"error\":{\"code\":");
    match e {
        Error::MalformedRequest => reply.append("-32602"),
        _ => reply.append("-32000"),
    }
    reply.append(",\"message\":");
    let message = e.message();
    let quoted = render(&text(message.as_str()));
    reply.append(quoted.as_str());
    reply.append("}}");
    reply
}

/// Asks the cache for the reply to the caller's `id` under `key`. An entry
/// that cannot be read as a JSON document that takes members makes the
/// cache unavailable for this call, which the executor treats as a miss.
pub fn serve_cached(cache: &ResponseCache, key: &[u8], id: &Value) -> (reply: Result<
    Option<String>,
    Error,
>)
    requires
        cache.wf(),
    ensures
        match reply {
            Ok(Some(r)) => cache_hit(cache@, key@, json_model(*id)) == Some(r@),
            Ok(None) => !cache@.contains_key(key@),
            Err(e) => e == Error::CacheUnavailable && cache@.contains_key(key@) && cache_hit(
                cache@,
                key@,
                json_model(*id),
            ) is None,
        },
{
    match cache.get(key) {
        Some(stored) => match parse(stored.as_slice()) {
            Some(doc) => {
                let mut doc = doc;
                match kind_of(&doc) {
                    JsonKind::Object | JsonKind::Null => {
                        put_member(&mut doc, "id", id.clone());
                        Ok(Some(render(&doc)))
                    },
                    _ => Err(Error::CacheUnavailable),
                }
            },
            None => Err(Error::CacheUnavailable),
        },
        None => Ok(None),
    }
}

/// The method of a request, where it names one.
fn method_name(request: &Value) -> (method: Option<String>)
    ensures
        match method {
            Some(m) => method_of(json_model(*request)) == Some(m@),
            None => method_of(json_model(*request)) is None,
        },
{
    match get_member(request, "method") {
        Some(m) => text_of(&m),
        None => None,
    }
}

/// The first parameter of a request, where it is a string.
fn first_parameter(request: &Value) -> (param: Option<String>)
    ensures
        match param {
            Some(p) => first_param(json_model(*request)) == Some(p@),
            None => first_param(json_model(*request)) is None,
        },
{
    match get_member(request, "params") {
        Some(params) => match get_element(&params, 0) {
            Some(p) => text_of(&p),
            None => None,
        },
        None => None,
    }
}

/// Handles an `eth_unsubscribe` request: takes the user out of the
/// subscription that its first parameter names.
fn unsubscribe(request: Value, id: Value, user_id: u64, sub_data: &mut SubscriptionData) -> (step:
    CallStep)
    requires
        old(sub_data).wf(),
        json_model(request).takes_members(),
    ensures
        final(sub_data).wf(),
        step@ == unsubscribe_outcome(json_model(request), json_model(id), user_id, old(sub_data)@),
        final(sub_data)@ == match first_param(json_model(request)) {
            Some(upstream_id) => old(sub_data)@.unsubscribe(user_id, upstream_id),
            None => old(sub_data)@,
        },
{
    match first_parameter(&request) {
        Some(upstream_id) => {
            let node = sub_data.unsubscribe_user(user_id, upstream_id);
            let text = result_reply_text(&id, "true");
            let teardown = match node {
                Some(node_id) => {
                    let mut message = request;
                    put_member(&mut message, "id", number(user_id));
                    Some(Teardown { node_id, message })
                },
                None => None,
            };
            CallStep::Reply { text, teardown }
        },
        None => CallStep::Reply {
            text: error_reply_text(&id, Error::MalformedRequest),
            teardown: None,
        },
    }
}

/// Handles an `eth_subscribe` request: joins the live subscription, or
/// goes upstream where there is none yet.
fn subscribe(request: Value, pending: PendingCall, sub_data: &mut SubscriptionData) -> (step:
    CallStep)
    requires
        old(sub_data).wf(),
    ensures
        final(sub_data).wf(),
        step@ == subscribe_outcome(json_model(request), pending@, old(sub_data)@),
        final(sub_data)@ == old(sub_data)@.subscribe(pending@.user_id, pending@.fingerprint),
{
    match sub_data.subscribe_user(pending.user_id, pending.fingerprint.clone()) {
        Ok(upstream_id) => {
            let quoted = render(&text(upstream_id.as_str()));
            let text = result_reply_text(&pending.id, quoted.as_str());
            CallStep::Reply { text, teardown: None }
        },
        Err(e) => {
            if e == Error::SubscriptionMissing {
                CallStep::Forward { request, substitute: false, pending }
            } else {
                CallStep::Retry
            }
        },
    }
}

/// Decides what to do with `call`, made by the user `user_id`.
///
/// A call that is neither an object nor `null` is refused. Otherwise the
/// caller's id is taken out, and the cache is asked under the key of what
/// is left. On a miss, `eth_unsubscribe` and `eth_subscribe` are served
/// from the subscription table as far as it can; everything else goes
/// upstream.
pub fn execute_ws_call(
    call: Value,
    user_id: u64,
    sub_data: &mut SubscriptionData,
    cache_args: &CacheArgs,
) -> (step: CallStep)
    requires
        old(sub_data).wf(),
        cache_args.cache.wf(),
    ensures
        final(sub_data).wf(),
        step@ == outcome(
            json_model(call),
            user_id,
            old(sub_data)@,
            cache_args.cache@,
            cache_args.hash,
        ),
        final(sub_data)@ == table_after(
            json_model(call),
            user_id,
            old(sub_data)@,
            cache_args.cache@,
            cache_args.hash,
        ),
{
    let mut call = call;
    match kind_of(&call) {
        JsonKind::Object | JsonKind::Null => {},
        _ => {
            let text = String::from_str(
                "{\"jsonrpc\":\"2.0\",\"id\":null,\"error\":{\"code\":-32600,\"message\":\"Invalid Request\"}}",
            );
            return CallStep::Reply { text, teardown: None };
        },
    }
    let id = take_member(&mut call, "id");
    let fingerprint = render(&call);
    let key = cache_key(cache_args.hash, fingerprint.as_str().as_bytes());
    match serve_cached(&cache_args.cache, key.as_slice(), &id) {
        Ok(Some(text)) => {
            return CallStep::Reply { text, teardown: None };
        },
        _ => {},
    }
    let method = method_name(&call);
    let unsubscribing = match &method {
        Some(m) => *m == String::from_str("eth_unsubscribe"),
        None => false,
    };
    let subscribing = match &method {
        Some(m) => *m == String::from_str("eth_subscribe"),
        None => false,
    };
    if unsubscribing {
        unsubscribe(call, id, user_id, sub_data)
    } else if subscribing {
        let pending = PendingCall { user_id, id, key, fingerprint, subscription: true };
        subscribe(call, pending, sub_data)
    } else {
        let pending = PendingCall { user_id, id, key, fingerprint, subscription: false };
        CallStep::Forward { request: call, substitute: true, pending }
    }
}

/// What a response means to a pending call: the reply for the caller where
/// the response carries the call's synthetic id, `None` where it is for
/// somebody else.
pub open spec fn reply_to(pending: Pending, content: Json) -> Option<Seq<char>> {
    if is_reply_to(content, pending.user_id) {
        Some(json_text(content.with_member("id"@, pending.id)))
    } else {
        None
    }
}

/// The subscription table after a pending call saw a response from the
/// worker `node_id`. The response to an `eth_subscribe` registers the
/// upstream subscription that its `result` names and makes the caller a
/// user of it; without such a result the attempt is given up.
pub open spec fn table_on_response(
    pending: Pending,
    content: Json,
    node_id: usize,
    table: Table,
) -> Table {
    if is_reply_to(content, pending.user_id) && pending.subscription {
        match content.field("result"@).as_text() {
            Some(upstream_id) => if table.registers(pending.fingerprint, upstream_id) {
                table.register(pending.fingerprint, upstream_id, node_id).subscribe(
                    pending.user_id,
                    pending.fingerprint,
                )
            } else {
                table.register(pending.fingerprint, upstream_id, node_id)
            },
            None => table.abandon(pending.user_id, pending.fingerprint),
        }
    } else {
        table
    }
}

/// The cache after a pending call saw a response. The response to a call
/// that is no subscription is stored under the call's key, unless it
/// reports an error.
pub open spec fn cache_on_response(
    pending: Pending,
    content: Json,
    cache: Map<Seq<u8>, Seq<u8>>,
) -> Map<Seq<u8>, Seq<u8>> {
    if is_reply_to(content, pending.user_id) && !pending.subscription && cacheable(content) {
        cache.insert(pending.key, cache_form(content))
    } else {
        cache
    }
}

/// The subscription table after a pending call ran out of time.
pub open spec fn table_on_timeout(pending: Pending, table: Table) -> Table {
    if pending.subscription {
        table.abandon(pending.user_id, pending.fingerprint)
    } else {
        table
    }
}

/// Whether `content` answers the call that went out under `user_id`.
pub fn answers(user_id: u64, content: &Value) -> (b: bool)
    ensures
        b == is_reply_to(json_model(*content), user_id),
{
    match get_member(content, "id") {
        Some(id) => number_of(&id) == Some(user_id),
        None => false,
    }
}

/// Correlation. A pending call takes a response exactly when it carries the
/// call's synthetic id, so no response completes two calls with different
/// ids. The reply is that response with the caller's own id in place of the
/// synthetic one, and with every other member as the node sent it.
pub proof fn lemma_correlation(pending: Pending, other: Pending, content: Json)
    ensures
        reply_to(pending, content) is Some <==> is_reply_to(content, pending.user_id),
        reply_to(pending, content) is Some && reply_to(other, content) is Some ==> pending.user_id
            == other.user_id,
        reply_to(pending, content) is Some ==> reply_to(pending, content) == Some(
            json_text(content.with_member("id"@, pending.id)),
        ),
        content.with_member("id"@, pending.id).field("id"@) == pending.id,
        forall|k: Seq<char>|
            k != "id"@ ==> content.with_member("id"@, pending.id).member(k) == content.member(k),
{
}

/// The caller's id does not perturb the fingerprint or the cache key: two
/// calls that differ only in their `id` have the same of both.
pub proof fn lemma_key_ignores_id(hash: KeyHash, call: Json, id: Json)
    ensures
        normalised(call.with_member("id"@, id)) == normalised(call),
        fingerprint(call.with_member("id"@, id)) == fingerprint(call),
        key_of(hash, call.with_member("id"@, id)) == key_of(hash, call),
{
    assert(call.with_member("id"@, id).members().insert("id"@, Json::Null)
        =~= call.members().insert("id"@, Json::Null));
}

/// Cache idempotence. Let a call that is no subscription go upstream and be
/// completed by the response `content`, which reports no error. Then the
/// same call under another `id` is answered from the cache: nothing goes
/// upstream, the subscription table stays as it is, and the two replies
/// are the same document but for their `id`. This holds where the stored
/// text reads back as the document that was written.
pub proof fn lemma_cache_idempotence(
    call: Json,
    other_id: Json,
    first_user: u64,
    second_user: u64,
    content: Json,
    table: Table,
    later: Table,
    cache: Map<Seq<u8>, Seq<u8>>,
    hash: KeyHash,
)
    requires
        call.takes_members(),
        outcome(call, first_user, table, cache, hash) matches Outcome::Forward { pending, .. }
            && !pending.subscription,
        is_reply_to(content, first_user),
        cacheable(content),
        json_parse(cache_form(content)) == Some(normalised(content)),
    ensures
        outcome(call, first_user, table, cache, hash) matches Outcome::Forward { pending, .. } ==> {
            let again = call.with_member("id"@, other_id);
            let filled = cache_on_response(pending, content, cache);
            &&& reply_to(pending, content) == Some(
                json_text(content.with_member("id"@, call.field("id"@))),
            )
            &&& outcome(again, second_user, later, filled, hash) == (Outcome::Reply {
                text: json_text(content.with_member("id"@, other_id)),
                teardown: None,
            })
            &&& table_after(again, second_user, later, filled, hash) == later
        },
{
    lemma_key_ignores_id(hash, call, other_id);
    assert(normalised(content).members().insert("id"@, other_id) =~= content.members().insert(
        "id"@,
        other_id,
    ));
}

/// The two subscription methods are different words.
proof fn lemma_methods_differ()
    ensures
        "eth_subscribe"@ != "eth_unsubscribe"@,
{
    reveal_strlit("eth_subscribe");
    reveal_strlit("eth_unsubscribe");
    assert("eth_subscribe"@.len() != "eth_unsubscribe"@.len());
}

/// Subscription dedup. An `eth_subscribe` call goes upstream only where its
/// request is neither live nor in flight, and once one user's call for a
/// request was taken, no other user's call for it goes upstream.
pub proof fn lemma_subscribe_goes_upstream_once(
    call: Json,
    first_user: u64,
    second_user: u64,
    table: Table,
    cache: Map<Seq<u8>, Seq<u8>>,
    hash: KeyHash,
)
    requires
        call.takes_members(),
        method_of(normalised(call)) == Some("eth_subscribe"@),
        cache_hit(cache, key_of(hash, call), call.field("id"@)) is None,
    ensures
        outcome(call, first_user, table, cache, hash) is Forward <==> table.subscribe_result(
            fingerprint(call),
        ) == Err::<Seq<char>, Error>(Error::SubscriptionMissing),
        !(outcome(
            call,
            second_user,
            table_after(call, first_user, table, cache, hash),
            cache,
            hash,
        ) is Forward),
{
    lemma_methods_differ();
}

/// Unsubscribe liveness. When the last user of a subscription unsubscribes,
/// the reply comes with the `eth_unsubscribe` request to send upstream,
/// under the call's synthetic id and addressed to the node that owns the
/// subscription, and the record is gone from the table.
pub proof fn lemma_last_unsubscribe_goes_upstream(
    call: Json,
    user_id: u64,
    subscribed: Seq<char>,
    table: Table,
    cache: Map<Seq<u8>, Seq<u8>>,
    hash: KeyHash,
)
    requires
        table.wf(),
        call.takes_members(),
        method_of(normalised(call)) == Some("eth_unsubscribe"@),
        cache_hit(cache, key_of(hash, call), call.field("id"@)) is None,
        table.subscriptions.contains_key(subscribed),
        first_param(normalised(call)) == Some(table.subscriptions[subscribed].upstream_id),
        table.subscriptions[subscribed].users == Set::<u64>::empty().insert(user_id),
    ensures
        outcome(call, user_id, table, cache, hash) == (Outcome::Reply {
            text: result_reply(call.field("id"@), "true"@),
            teardown: Some(
                TeardownView {
                    node_id: table.subscriptions[subscribed].node_id,
                    message: stamped(normalised(call), user_id),
                },
            ),
        }),
        !table_after(call, user_id, table, cache, hash).subscriptions.contains_key(subscribed),
{
    table.lemma_unsubscribe_tears_down(user_id, subscribed);
}

/// Finds, among the responses received so far, the one for the call that
/// went out under `user_id`: the first that carries this id. Without one
/// the call counts as timed out.
pub fn listen_for_response(user_id: u64, received: &Vec<IncomingResponse>) -> (result: Result<
    Value,
    Error,
>)
    ensures
        match result {
            Ok(content) => exists|i: int|
                0 <= i < received@.len() && json_model(content) == json_model(
                    (#[trigger] received@[i]).content,
                ) && is_reply_to(json_model(content), user_id) && forall|j: int|
                    0 <= j < i ==> !is_reply_to(
                        json_model((#[trigger] received@[j]).content),
                        user_id,
                    ),
            Err(e) => e == Error::CorrelationTimeout && forall|i: int|
                0 <= i < received@.len() ==> !is_reply_to(
                    json_model((#[trigger] received@[i]).content),
                    user_id,
                ),
        },
{
    let mut i: usize = 0;
    while i < received.len()
        invariant
            i <= received.len(),
            forall|j: int|
                0 <= j < i ==> !is_reply_to(json_model((#[trigger] received@[j]).content), user_id),
        decreases received.len() - i,
    {
        if answers(user_id, &received[i].content) {
            return Ok(received[i].content.clone());
        }
        i += 1;
    }
    Err(Error::CorrelationTimeout)
}

impl PendingCall {
    /// The synthetic id under which the call goes out.
    pub fn user_id(&self) -> (id: u64)
        ensures
            id == self@.user_id,
    {
        self.user_id
    }

    /// Whether the call is an `eth_subscribe`.
    pub fn is_subscription(&self) -> (b: bool)
        ensures
            b == self@.subscription,
    {
        self.subscription
    }

    /// Puts `request` under the call's synthetic id, ready for the manager's
    /// queue. A request that is neither an object nor `null` is refused.
    pub fn stamp(&self, request: Value) -> (message: Result<WsconnMessage, Error>)
        ensures
            match message {
                Ok(m) => json_model(request).takes_members() && m@ == Outbound::Message(
                    stamped(json_model(request), self@.user_id),
                ),
                Err(e) => !json_model(request).takes_members() && e == Error::MalformedRequest,
            },
    {
        let mut request = request;
        match kind_of(&request) {
            JsonKind::Object | JsonKind::Null => {
                put_member(&mut request, "id", number(self.user_id));
                Ok(WsconnMessage::Message(request))
            },
            _ => Err(Error::MalformedRequest),
        }
    }

    /// Takes one broadcast response. Where it carries the call's synthetic
    /// id, the call is complete: the caller's own id is put back and the
    /// text of the reply returned; an upstream subscription is registered,
    /// any other response without an error cached. A response for somebody
    /// else changes nothing and returns `None`.
    pub fn on_response(
        &self,
        response: IncomingResponse,
        sub_data: &mut SubscriptionData,
        cache_args: &mut CacheArgs,
    ) -> (reply: Option<String>)
        requires
            old(sub_data).wf(),
            old(cache_args).cache.wf(),
        ensures
            final(sub_data).wf(),
            final(cache_args).cache.wf(),
            final(cache_args).hash == old(cache_args).hash,
            match reply {
                Some(text) => reply_to(self@, json_model(response.content)) == Some(text@),
                None => reply_to(self@, json_model(response.content)) is None,
            },
            final(sub_data)@ == table_on_response(
                self@,
                json_model(response.content),
                response.node_id,
                old(sub_data)@,
            ),
            final(cache_args).cache@ == cache_on_response(
                self@,
                json_model(response.content),
                old(cache_args).cache@,
            ),
    {
        if !answers(self.user_id, &response.content) {
            return None;
        }
        let node_id = response.node_id;
        let mut content = response.content;
        if self.subscription {
            let upstream_id = match get_member(&content, "result") {
                Some(result) => text_of(&result),
                None => None,
            };
            match upstream_id {
                Some(upstream_id) => {
                    let created = sub_data.register_subscription(
                        self.fingerprint.clone(),
                        upstream_id,
                        node_id,
                    );
                    if created {
                        let _ = sub_data.subscribe_user(self.user_id, self.fingerprint.clone());
                    }
                },
                None => {
                    sub_data.abandon_subscription(self.user_id, &self.fingerprint);
                },
            }
        } else if get_member(&content, "error").is_none() {
            let mut stored = content.clone();
            put_member(&mut stored, "id", null_value());
            let stored_text = render(&stored);
            cache_args.cache.put(self.key.clone(), stored_text.as_str().as_bytes_vec());
        }
        put_member(&mut content, "id", self.id.clone());
        Some(render(&content))
    }

    /// Gives the call up: the reply is a correlation-timeout error under the
    /// caller's own id, and an upstream subscribe in flight is abandoned.
    pub fn on_timeout(&self, sub_data: &mut SubscriptionData) -> (reply: String)
        requires
            old(sub_data).wf(),
        ensures
            final(sub_data).wf(),
            reply@ == error_reply(self@.id, Error::CorrelationTimeout),
            final(sub_data)@ == table_on_timeout(self@, old(sub_data)@),
    {
        if self.subscription {
            sub_data.abandon_subscription(self.user_id, &self.fingerprint);
        }
        error_reply_text(&self.id, Error::CorrelationTimeout)
    }
}

} // verus!
