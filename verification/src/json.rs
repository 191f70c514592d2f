//! JSON documents as the library sees them: a mathematical model of a
//! document, and the calls into `serde_json` through which the library reads
//! and builds one.
//!
//! Everything the library proves about decoding and encoding rests on the
//! contracts of the calls declared here. Their bodies are not verified; each
//! doc comment says what is taken on trust.

use serde_json::Number;
use serde_json::Value;
use vstd::prelude::*;

verus! {

#[verifier::external_type_specification]
#[verifier::external_body]
pub struct ExValue(serde_json::Value);

#[verifier::external_type_specification]
#[verifier::external_body]
pub struct ExNumber(serde_json::Number);

#[verifier::external_type_specification]
#[verifier::external_body]
pub struct ExJsonError(serde_json::Error);

/// A JSON number: an integer with its value, or any other number, which is
/// known by the text that `serde_json` writes it as.
pub ghost enum JsonNumber {
    Integer(int),
    Real(Seq<char>),
}

/// A JSON document.
pub ghost enum Json {
    Null,
    Bool(bool),
    Number(JsonNumber),
    Text(Seq<char>),
    Array(Seq<Json>),
    Object(Map<Seq<char>, Json>),
}

/// The document that a `serde_json::Value` holds.
pub uninterp spec fn json_view(v: Value) -> Json;

/// The number that a `serde_json::Number` holds.
pub uninterp spec fn number_view(n: Number) -> JsonNumber;

/// The document that `serde_json` reads from a text, if it reads one.
pub uninterp spec fn json_document(text: Seq<char>) -> Option<Json>;

/// The member of an object under a key; `None` for a missing key and for
/// anything that is not an object.
pub open spec fn json_member(j: Json, key: Seq<char>) -> Option<Json> {
    match j {
        Json::Object(members) => if members.contains_key(key) {
            Some(members[key])
        } else {
            None
        },
        _ => None,
    }
}

/// The keys of the members of an object; `None` for anything that is not an
/// object.
pub open spec fn json_keys(j: Json) -> Option<Set<Seq<char>>> {
    match j {
        Json::Object(members) => Some(members.dom()),
        _ => None,
    }
}

/// The characters of a JSON string.
pub open spec fn json_text(j: Json) -> Option<Seq<char>> {
    match j {
        Json::Text(t) => Some(t),
        _ => None,
    }
}

/// A JSON number, whatever its kind.
pub open spec fn json_number(j: Json) -> Option<JsonNumber> {
    match j {
        Json::Number(n) => Some(n),
        _ => None,
    }
}

/// The value of a JSON number that is an integer of 64 bits, sign included.
pub open spec fn json_i64(j: Json) -> Option<i64> {
    match j {
        Json::Number(JsonNumber::Integer(i)) => if i64::MIN <= i <= i64::MAX {
            Some(i as i64)
        } else {
            None
        },
        _ => None,
    }
}

/// The elements of a JSON array.
pub open spec fn json_items(j: Json) -> Option<Seq<Json>> {
    match j {
        Json::Array(items) => Some(items),
        _ => None,
    }
}

/// The documents that a sequence of values holds, one by one.
pub open spec fn json_views(values: Seq<Value>) -> Seq<Json> {
    Seq::new(values.len(), |i: int| json_view(values[i]))
}

/// Calls `serde_json::from_str` for a `Value`. Trusted: the outcome is a
/// function of the text alone, named `json_document`; an error stands for a
/// text that is no JSON document.
#[verifier::external_body]
pub(crate) fn parse_value(text: &str) -> (r: Result<Value, serde_json::Error>)
    ensures
        match r {
            Ok(v) => json_document(text@) == Some(json_view(v)),
            Err(_) => json_document(text@) is None,
        },
{
    serde_json::from_str::<Value>(text)
}

/// Calls `Value::get` with a string key. Trusted: it hands out the member of
/// an object under that key, and nothing for a missing key or a value that is
/// not an object.
#[verifier::external_body]
pub(crate) fn member<'a>(v: &'a Value, key: &str) -> (r: Option<&'a Value>)
    ensures
        match r {
            Some(m) => json_member(json_view(*v), key@) == Some(json_view(*m)),
            None => json_member(json_view(*v), key@) is None,
        },
{
    v.get(key)
}

/// Calls `Value::as_str`. Trusted: it hands out the characters of a string,
/// and nothing for any other value.
#[verifier::external_body]
pub(crate) fn text_of<'a>(v: &'a Value) -> (r: Option<&'a str>)
    ensures
        match r {
            Some(t) => json_text(json_view(*v)) == Some(t@),
            None => json_text(json_view(*v)) is None,
        },
{
    v.as_str()
}

/// Calls `Value::as_i64`. Trusted: it hands out a number that `serde_json`
/// holds as an integer and that fits 64 bits with a sign, and nothing for any
/// other value.
#[verifier::external_body]
pub(crate) fn integer_of(v: &Value) -> (r: Option<i64>)
    ensures
        r == json_i64(json_view(*v)),
{
    v.as_i64()
}

/// Calls `Value::as_number` and clones what it finds. Trusted: it hands out
/// the number that the value is, and nothing for any other value.
#[verifier::external_body]
pub(crate) fn number_of(v: &Value) -> (r: Option<Number>)
    ensures
        match r {
            Some(n) => json_number(json_view(*v)) == Some(number_view(n)),
            None => json_number(json_view(*v)) is None,
        },
{
    v.as_number().cloned()
}

/// Calls `Value::as_object` and `serde_json::Map::len`. Trusted: it hands
/// out how many members an object has, which are finitely many, and nothing
/// for any other value.
#[verifier::external_body]
pub(crate) fn member_count(v: &Value) -> (r: Option<usize>)
    ensures
        match r {
            Some(n) => json_keys(json_view(*v)) is Some && json_keys(json_view(*v))->0.finite()
                && json_keys(json_view(*v))->0.len() == n,
            None => json_keys(json_view(*v)) is None,
        },
{
    v.as_object().map(serde_json::Map::len)
}

/// Calls `Value::as_array`. Trusted: it hands out the elements of an array
/// in their order, and nothing for any other value.
#[verifier::external_body]
pub(crate) fn items_of<'a>(v: &'a Value) -> (r: Option<&'a Vec<Value>>)
    ensures
        match r {
            Some(items) => json_items(json_view(*v)) == Some(json_views(items@)),
            None => json_items(json_view(*v)) is None,
        },
{
    v.as_array()
}

/// Calls `Number::clone`. Trusted: the clone holds the same number.
#[verifier::external_body]
pub(crate) fn copy_number(n: &Number) -> (r: Number)
    ensures
        number_view(r) == number_view(*n),
{
    n.clone()
}

/// Calls `Value::from` on a string slice. Trusted: the value is the string
/// of those characters.
#[verifier::external_body]
pub(crate) fn text_value(t: &str) -> (r: Value)
    ensures
        json_view(r) == Json::Text(t@),
{
    Value::from(t)
}

/// Calls `Value::from` on an integer. Trusted: the value is the number that
/// `serde_json` holds as that integer.
#[verifier::external_body]
pub(crate) fn integer_value(i: i64) -> (r: Value)
    ensures
        json_view(r) == Json::Number(JsonNumber::Integer(i as int)),
{
    Value::from(i)
}

/// Wraps a clone of a number in `Value::Number`. Trusted: the value is that
/// number.
#[verifier::external_body]
pub(crate) fn number_value(n: &Number) -> (r: Value)
    ensures
        json_view(r) == Json::Number(number_view(*n)),
{
    Value::Number(n.clone())
}

/// Wraps a vector in `Value::Array`. Trusted: the value is the array of its
/// elements in their order.
#[verifier::external_body]
pub(crate) fn array_value(items: Vec<Value>) -> (r: Value)
    ensures
        json_view(r) == Json::Array(json_views(items@)),
{
    Value::Array(items)
}

/// Wraps `serde_json::Map::new` in `Value::Object`. Trusted: the value is
/// the object without members.
#[verifier::external_body]
pub(crate) fn empty_object() -> (r: Value)
    ensures
        json_view(r) == Json::Object(Map::<Seq<char>, Json>::empty()),
{
    Value::Object(serde_json::Map::new())
}

/// Calls `serde_json::Map::insert` on the members of an object. Trusted: the
/// object then has the value under the key, in place of what it had there,
/// and its other members as before.
#[verifier::external_body]
pub(crate) fn insert_member(object: &mut Value, key: &str, value: Value)
    requires
        json_view(*old(object)) is Object,
    ensures
        json_view(*final(object)) == Json::Object(
            json_view(*old(object))->Object_0.insert(key@, json_view(value)),
        ),
{
    if let Value::Object(members) = object {
        members.insert(key.to_owned(), value);
    }
}

} // verus!
