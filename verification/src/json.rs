//! JSON values, as `serde_json` holds, reads and writes them.

use vstd::prelude::*;

use serde_json::Value;

verus! {

// ---------------------------------------------------------------------------
// What a JSON value is
// ---------------------------------------------------------------------------
/// A JSON value, independent of how it is stored.
pub enum Json {
    Null,
    Bool(bool),
    Integer(int),
    /// A number that is not held as an integer of 64 bits, by the bits of its double.
    Real(u64),
    Text(Seq<char>),
    Array(Seq<Json>),
    Object(Map<Seq<char>, Json>),
}

impl Json {
    /// The value under `key`, where this is an object that has one.
    pub open spec fn member(self, key: Seq<char>) -> Option<Json> {
        match self {
            Json::Object(fields) => if fields.contains_key(key) {
                Some(fields[key])
            } else {
                None
            },
            _ => None,
        }
    }

    /// The text, where this is one.
    pub open spec fn text(self) -> Option<Seq<char>> {
        match self {
            Json::Text(text) => Some(text),
            _ => None,
        }
    }
}

/// A number, or null where there is none.
pub open spec fn number_or_null(n: Option<u64>) -> Json {
    match n {
        Some(n) => Json::Integer(n as int),
        None => Json::Null,
    }
}

// ---------------------------------------------------------------------------
// The types of `serde_json`
// ---------------------------------------------------------------------------
/// `serde_json::Value`, of which the proofs know only what [`json_of`] names.
#[verifier::external_type_specification]
#[verifier::external_body]
pub struct ExValue(Value);

/// `serde_json::Map`, of which the proofs know only what [`fields_of`] names.
#[verifier::external_type_specification]
#[verifier::external_body]
#[verifier::reject_recursive_types(K)]
#[verifier::reject_recursive_types(V)]
pub struct ExFields<K, V>(serde_json::Map<K, V>);

/// `serde_json::Error`, which is only carried.
#[verifier::external_type_specification]
#[verifier::external_body]
pub struct ExJsonError(serde_json::Error);

/// The members of a JSON object.
pub type Fields = serde_json::Map<String, Value>;

/// The JSON value that a `serde_json::Value` holds.
pub uninterp spec fn json_of(value: Value) -> Json;

/// The members that a `serde_json::Map` holds, by key.
pub uninterp spec fn fields_of(fields: Fields) -> Map<Seq<char>, Json>;

/// The JSON value that `serde_json::from_str` reads from a text, where it reads one.
pub uninterp spec fn parsed(text: Seq<char>) -> Option<Json>;

/// The text that `serde_json::to_string` writes for a value.
pub uninterp spec fn written(value: Json) -> Seq<char>;

// ---------------------------------------------------------------------------
// Calls into `serde_json`
// ---------------------------------------------------------------------------
/// Calls `serde_json::Value::from` on a `String`: the value is that text.
#[verifier::external_body]
fn text_value(text: String) -> (r: Value)
    ensures
        json_of(r) == Json::Text(text@),
{
    Value::from(text)
}

/// Calls `serde_json::Value::from` on a `bool`: the value is that boolean.
#[verifier::external_body]
pub(crate) fn boolean(b: bool) -> (r: Value)
    ensures
        json_of(r) == Json::Bool(b),
{
    Value::from(b)
}

/// Calls `serde_json::Value::from` on an `Option<u64>`: the value is that
/// number, or null for `None`.
#[verifier::external_body]
pub(crate) fn optional_number(n: Option<u64>) -> (r: Value)
    ensures
        json_of(r) == number_or_null(n),
{
    Value::from(n)
}

/// Calls `serde_json::Value::from` on a map: the value is the object with those members.
#[verifier::external_body]
pub(crate) fn object(fields: Fields) -> (r: Value)
    ensures
        json_of(r) == Json::Object(fields_of(fields)),
{
    Value::from(fields)
}

/// Calls `serde_json::Map::new`: the map has no members.
#[verifier::external_body]
pub(crate) fn no_fields() -> (r: Fields)
    ensures
        (fields_of(r) == Map::<Seq<char>, Json>::empty()),
{
    serde_json::Map::new()
}

/// Calls `serde_json::Map::insert`: afterwards the map holds `value` under
/// `key`, and under the other keys what it held before.
#[verifier::external_body]
fn insert(fields: &mut Fields, key: String, value: Value)
    ensures
        fields_of(*final(fields)) == fields_of(*old(fields)).insert(key@, json_of(value)),
{
    fields.insert(key, value);
}

/// Calls `serde_json::from_str`, reading a `serde_json::Value`: whether it
/// succeeds, and what it reads, is determined by the text.
#[verifier::external_body]
pub(crate) fn parse(text: &str) -> (r: Result<Value, serde_json::Error>)
    ensures
        match r {
            Ok(value) => parsed(text@) == Some(json_of(value)),
            Err(_) => parsed(text@) is None,
        },
{
    serde_json::from_str(text)
}

/// Calls `serde_json::to_string` on a `serde_json::Value`: it succeeds, since
/// all keys of a `Value` are strings and nothing in one refuses to be written,
/// and what it writes is determined by the JSON value.
#[verifier::external_body]
pub(crate) fn write(value: &Value) -> (r: Result<String, serde_json::Error>)
    ensures
        r is Ok,
        r matches Ok(text) ==> text@ == written(json_of(*value)),
{
    serde_json::to_string(value)
}

/// Calls `serde_json::Value::get` with a string: the member under `key` of an
/// object that has one, else `None`.
#[verifier::external_body]
pub(crate) fn member<'a>(value: &'a Value, key: &str) -> (r: Option<&'a Value>)
    ensures
        match r {
            Some(found) => json_of(*value).member(key@) == Some(json_of(*found)),
            None => json_of(*value).member(key@) is None,
        },
{
    value.get(key)
}

/// Calls `serde_json::Value::as_str`: the text of a JSON string, else `None`.
#[verifier::external_body]
pub(crate) fn as_text(value: &Value) -> (r: Option<&str>)
    ensures
        match r {
            Some(text) => json_of(*value).text() == Some(text@),
            None => json_of(*value).text() is None,
        },
{
    value.as_str()
}

// ---------------------------------------------------------------------------
// Building values
// ---------------------------------------------------------------------------
pub(crate) fn text(s: &str) -> (r: Value)
    ensures
        json_of(r) == Json::Text(s@),
{
    text_value(s.to_string())
}

pub(crate) fn number(n: u64) -> (r: Value)
    ensures
        json_of(r) == Json::Integer(n as int),
{
    optional_number(Some(n))
}

/// Puts `value` under `key`.
pub(crate) fn put(fields: &mut Fields, key: &str, value: Value)
    ensures
        fields_of(*final(fields)) == fields_of(*old(fields)).insert(key@, json_of(value)),
{
    insert(fields, key.to_string(), value);
}

/// What an object holds under a key, and that nothing else holds anything.
pub proof fn law_members(fields: Map<Seq<char>, Json>, key: Seq<char>, value: Json, n: u64)
    ensures
        Json::Object(fields.insert(key, value)).member(key) == Some(value),
        !fields.contains_key(key) ==> Json::Object(fields).member(key) is None,
        !(value is Object) ==> value.member(key) is None,
        Json::Text(key).text() == Some(key),
        !(value is Text) ==> value.text() is None,
        number_or_null(Some(n)) == Json::Integer(n as int),
        number_or_null(None) == Json::Null,
{
}

} // verus!
