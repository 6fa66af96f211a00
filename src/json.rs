//! What the library reads of a JSON message: the members of its top-level
//! object. Parsing is serde_json's.

use vstd::prelude::*;

use crate::settings::Real;

verus! {

#[verifier::external_type_specification]
#[verifier::external_body]
pub struct ExJsonValue(serde_json::Value);

#[verifier::external_type_specification]
#[verifier::external_body]
pub struct ExJsonError(serde_json::Error);

#[verifier::external_type_specification]
#[verifier::external_body]
#[verifier::reject_recursive_types(K)]
#[verifier::reject_recursive_types(V)]
pub struct ExJsonMap<K, V>(serde_json::Map<K, V>);

/// A parsed JSON object.
pub type JsonObject = serde_json::Map<String, serde_json::Value>;

/// A member of a JSON object, as far as message decoding reads it.
#[derive(Clone, Copy, Debug, PartialEq, Eq)]
pub enum JsonMember {
    Null,
    Bool(bool),
    /// A number: `whole` is its value when it is a non-negative integer that
    /// fits in 64 bits, `value` the nearest double.
    Number { whole: Option<u64>, value: Real },
    /// A string, an array or an object.
    Other,
}

/// The members of a JSON text's top-level object, keyed by name; `None` when
/// the text is not a JSON object (malformed, or another kind of value).
pub uninterp spec fn parsed_object(text: Seq<char>) -> Option<Map<Seq<char>, JsonMember>>;

/// The members that a parsed object holds, keyed by name.
pub uninterp spec fn object_members(obj: serde_json::Map<String, serde_json::Value>) -> Map<Seq<char>, JsonMember>;

/// The member of `members` named `key`, if there is one.
pub open spec fn member_of(members: Map<Seq<char>, JsonMember>, key: Seq<char>) -> Option<JsonMember> {
    if members.contains_key(key) {
        Some(members[key])
    } else {
        None
    }
}

/// Relies on serde_json::from_str into a `Map<String, Value>`: it succeeds
/// exactly on a JSON object with nothing after it, and then holds its members.
#[verifier::external_body]
pub(crate) fn parse_object(text: &str) -> (r: Result<JsonObject, serde_json::Error>)
    ensures
        match r {
            Ok(obj) => parsed_object(text@) == Some(object_members(obj)),
            Err(_) => parsed_object(text@) is None,
        },
{
    serde_json::from_str::<JsonObject>(text)
}

/// Relies on serde_json::Map::get, and on Number::as_u64 and Number::as_f64
/// to describe a number member.
#[verifier::external_body]
pub(crate) fn member(obj: &JsonObject, key: &str) -> (r: Option<JsonMember>)
    ensures
        r == member_of(object_members(*obj), key@),
{
    match obj.get(key) {
        None => None,
        Some(serde_json::Value::Null) => Some(JsonMember::Null),
        Some(serde_json::Value::Bool(b)) => Some(JsonMember::Bool(*b)),
        Some(serde_json::Value::Number(n)) => Some(JsonMember::Number {
            whole: n.as_u64(),
            value: Real(n.as_f64().unwrap_or_default().to_bits()),
        }),
        Some(_) => Some(JsonMember::Other),
    }
}

} // verus!
