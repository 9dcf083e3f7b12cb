//! JSON values as verified code sees them.
//!
//! Requests and responses travel through the balancer as `serde_json::Value`.
//! The verifier cannot look inside such a value, so this module gives it a
//! mathematical model, [`Json`], and a small set of trusted accessors whose
//! contracts are stated over that model. Everything else in the crate reasons
//! about JSON only through these accessors.
use serde_json::Value;
use vstd::prelude::*;

verus! {

/// `serde_json::Value`, carried through verified code as an opaque value.
#[verifier::external_type_specification]
#[verifier::external_body]
pub struct ExValue(serde_json::Value);

/// A JSON number, in the three shapes `serde_json` stores: a non-negative
/// integer, a negative integer, or a finite float given by its IEEE-754 bits.
pub enum JsonNumber {
    Unsigned(u64),
    Negative(i64),
    Float(u64),
}

/// The mathematical content of a JSON value.
pub enum Json {
    Null,
    Bool(bool),
    Number(JsonNumber),
    Text(Seq<char>),
    Array(Seq<Json>),
    Object(Map<Seq<char>, Json>),
}

/// The six shapes a JSON value can take.
#[derive(Clone, Copy, PartialEq, Eq, Structural)]
pub enum JsonKind {
    Null,
    Bool,
    Number,
    Text,
    Array,
    Object,
}

impl Json {
    /// The shape of this value.
    pub open spec fn kind(self) -> JsonKind {
        match self {
            Json::Null => JsonKind::Null,
            Json::Bool(_) => JsonKind::Bool,
            Json::Number(_) => JsonKind::Number,
            Json::Text(_) => JsonKind::Text,
            Json::Array(_) => JsonKind::Array,
            Json::Object(_) => JsonKind::Object,
        }
    }

    /// The member stored under `key`, if this is an object that has one.
    pub open spec fn member(self, key: Seq<char>) -> Option<Json> {
        match self {
            Json::Object(m) => if m.contains_key(key) {
                Some(m[key])
            } else {
                None
            },
            _ => None,
        }
    }

    /// The element at position `i`, if this is an array that long.
    pub open spec fn element(self, i: int) -> Option<Json> {
        match self {
            Json::Array(items) => if 0 <= i < items.len() {
                Some(items[i])
            } else {
                None
            },
            _ => None,
        }
    }

    /// The member stored under `key`, or `Null` where there is none.
    pub open spec fn field(self, key: Seq<char>) -> Json {
        match self.member(key) {
            Some(x) => x,
            None => Json::Null,
        }
    }

    /// The members of this value: those of an object, none otherwise.
    pub open spec fn members(self) -> Map<Seq<char>, Json> {
        match self {
            Json::Object(m) => m,
            _ => Map::empty(),
        }
    }

    /// This value with `key` bound to `x`. `Null` counts as the empty object.
    pub open spec fn with_member(self, key: Seq<char>, x: Json) -> Json {
        Json::Object(self.members().insert(key, x))
    }

    /// Whether members can be written into this value: an object, or `Null`.
    pub open spec fn takes_members(self) -> bool {
        self is Object || self is Null
    }

    /// The non-negative integer this value holds, if it is one.
    pub open spec fn as_unsigned(self) -> Option<u64> {
        match self {
            Json::Number(JsonNumber::Unsigned(n)) => Some(n),
            _ => None,
        }
    }

    /// The string this value holds, if it is one.
    pub open spec fn as_text(self) -> Option<Seq<char>> {
        match self {
            Json::Text(s) => Some(s),
            _ => None,
        }
    }
}

/// What a `serde_json::Value` holds.
pub uninterp spec fn json_model(v: Value) -> Json;

/// The compact text that `serde_json` writes for a value. It depends on the
/// content alone: `serde_json` keeps the members of an object sorted by key
/// (its `preserve_order` feature is off), so the order in which they were
/// put in leaves no trace.
pub uninterp spec fn json_text(j: Json) -> Seq<char>;

/// What `simd_json` reads from a byte string: the value, or `None` where the
/// bytes are not a JSON document.
pub uninterp spec fn json_parse(bytes: Seq<u8>) -> Option<Json>;

/// The model of an optional value.
pub open spec fn model_of(v: Option<Value>) -> Option<Json> {
    match v {
        Some(x) => Some(json_model(x)),
        None => None,
    }
}

/// Tells the variants of `serde_json::Value` apart.
#[verifier::external_body]
pub(crate) fn kind_of(v: &Value) -> (k: JsonKind)
    ensures
        k == json_model(*v).kind(),
{
    match v {
        Value::Null => JsonKind::Null,
        Value::Bool(_) => JsonKind::Bool,
        Value::Number(_) => JsonKind::Number,
        Value::String(_) => JsonKind::Text,
        Value::Array(_) => JsonKind::Array,
        Value::Object(_) => JsonKind::Object,
    }
}

/// `Value::get` with a string key: a copy of the member under `key` when the
/// value is an object that has it, `None` otherwise.
#[verifier::external_body]
pub(crate) fn get_member(v: &Value, key: &str) -> (r: Option<Value>)
    ensures
        model_of(r) == json_model(*v).member(key@),
{
    v.get(key).cloned()
}

/// `Value::get` with a position: a copy of the element at `i` when the value
/// is an array that long, `None` otherwise.
#[verifier::external_body]
pub(crate) fn get_element(v: &Value, i: usize) -> (r: Option<Value>)
    ensures
        model_of(r) == json_model(*v).element(i as int),
{
    v.get(i).cloned()
}

/// `Value::as_str`: the string when the value is one, `None` otherwise.
#[verifier::external_body]
pub(crate) fn text_of(v: &Value) -> (r: Option<String>)
    ensures
        match r {
            Some(s) => json_model(*v).as_text() == Some(s@),
            None => json_model(*v).as_text() is None,
        },
{
    v.as_str().map(|s| s.to_owned())
}

/// `Value::as_u64`: the number when the value is a non-negative integer,
/// `None` otherwise.
#[verifier::external_body]
pub(crate) fn number_of(v: &Value) -> (r: Option<u64>)
    ensures
        r == json_model(*v).as_unsigned(),
{
    v.as_u64()
}

/// `value[key].take()`: hands out the member under `key` (`Null` where there
/// is none) and leaves `Null` in its place. Indexing panics on anything but
/// an object or `Null`, hence the precondition; `Null` becomes an object.
#[verifier::external_body]
pub(crate) fn take_member(v: &mut Value, key: &str) -> (r: Value)
    requires
        json_model(*old(v)).takes_members(),
    ensures
        json_model(r) == json_model(*old(v)).field(key@),
        json_model(*final(v)) == json_model(*old(v)).with_member(key@, Json::Null),
{
    v[key].take()
}

/// `value[key] = x`: binds `key` to `x`. Indexing panics on anything but an
/// object or `Null`, hence the precondition; `Null` becomes an object.
#[verifier::external_body]
pub(crate) fn put_member(v: &mut Value, key: &str, x: Value)
    requires
        json_model(*old(v)).takes_members(),
    ensures
        json_model(*final(v)) == json_model(*old(v)).with_member(key@, json_model(x)),
{
    v[key] = x;
}

/// `Value::to_string`: the compact text of the value.
#[verifier::external_body]
pub(crate) fn render(v: &Value) -> (s: String)
    ensures
        s@ == json_text(json_model(*v)),
{
    v.to_string()
}

/// `Value::Null`.
#[verifier::external_body]
pub(crate) fn null_value() -> (v: Value)
    ensures
        json_model(v) == Json::Null,
{
    Value::Null
}

/// `Value::from(u64)`: the number `n`.
#[verifier::external_body]
pub(crate) fn number(n: u64) -> (v: Value)
    ensures
        json_model(v) == Json::Number(JsonNumber::Unsigned(n)),
{
    Value::from(n)
}

/// `Value::from(&str)`: the string `s`.
#[verifier::external_body]
pub(crate) fn text(s: &str) -> (v: Value)
    ensures
        json_model(v) == Json::Text(s@),
{
    Value::from(s)
}

/// `Value::clone`: a value with the same content.
pub assume_specification[ <serde_json::Value as Clone>::clone ](v: &serde_json::Value) -> (r:
    serde_json::Value)
    ensures
        json_model(r) == json_model(*v),
;

/// `simd_json::from_slice`, which parses in place, run on a copy of `bytes`.
#[verifier::external_body]
pub(crate) fn parse(bytes: &[u8]) -> (r: Option<Value>)
    ensures
        model_of(r) == json_parse(bytes@),
{
    let mut buffer = bytes.to_vec();
    simd_json::from_slice::<Value>(&mut buffer).ok()
}

} // verus!
