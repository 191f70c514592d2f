//! Reading one member of a JSON object as the kind of value that the schema
//! asks for, and counting the members of an object. A member that is
//! missing, or of another kind, reads as nothing.

use crate::json::{
    integer_of, json_i64, json_keys, json_member, json_number, json_text, json_view, member,
    member_count, number_of, text_of, Json, JsonNumber,
};
use crate::model::Quantity;
use serde_json::Value;
use vstd::prelude::*;

verus! {

/// The string under a key.
pub open spec fn text_at(j: Json, key: Seq<char>) -> Option<Seq<char>> {
    match json_member(j, key) {
        Some(m) => json_text(m),
        None => None,
    }
}

/// The number under a key, integer or not.
pub open spec fn quantity_at(j: Json, key: Seq<char>) -> Option<JsonNumber> {
    match json_member(j, key) {
        Some(m) => json_number(m),
        None => None,
    }
}

/// The integer under a key, where it fits 64 bits with a sign.
pub open spec fn i64_at(j: Json, key: Seq<char>) -> Option<i64> {
    match json_member(j, key) {
        Some(m) => json_i64(m),
        None => None,
    }
}

/// The integer under a key, where it fits 32 bits with a sign.
pub open spec fn i32_at(j: Json, key: Seq<char>) -> Option<i32> {
    match i64_at(j, key) {
        Some(i) => if i32::MIN <= i <= i32::MAX {
            Some(i as i32)
        } else {
            None
        },
        None => None,
    }
}

/// The integer under a key, where it fits 32 bits without a sign.
pub open spec fn u32_at(j: Json, key: Seq<char>) -> Option<u32> {
    match i64_at(j, key) {
        Some(i) => if 0 <= i <= u32::MAX {
            Some(i as u32)
        } else {
            None
        },
        None => None,
    }
}

/// Whether a document is an object of just so many members.
pub open spec fn has_members(j: Json, count: nat) -> bool {
    json_keys(j) is Some && json_keys(j)->0.finite() && json_keys(j)->0.len() == count
}

/// Tells whether a value is an object of just so many members.
pub fn has_member_count(v: &Value, count: usize) -> (r: bool)
    ensures
        r == has_members(json_view(*v), count as nat),
{
    match member_count(v) {
        Some(n) => n == count,
        None => false,
    }
}

/// Reads the string under a key.
pub fn text_field(v: &Value, key: &str) -> (r: Option<String>)
    ensures
        match r {
            Some(t) => text_at(json_view(*v), key@) == Some(t@),
            None => text_at(json_view(*v), key@) is None,
        },
{
    let m = member(v, key)?;
    let t = text_of(m)?;
    Some(t.to_owned())
}

/// Reads the number under a key.
pub fn quantity_field(v: &Value, key: &str) -> (r: Option<Quantity>)
    ensures
        match r {
            Some(q) => quantity_at(json_view(*v), key@) == Some(q@),
            None => quantity_at(json_view(*v), key@) is None,
        },
{
    let m = member(v, key)?;
    let number = number_of(m)?;
    Some(Quantity { number })
}

/// Reads the integer under a key, as 64 bits with a sign.
pub fn i64_field(v: &Value, key: &str) -> (r: Option<i64>)
    ensures
        r == i64_at(json_view(*v), key@),
{
    let m = member(v, key)?;
    integer_of(m)
}

/// Reads the integer under a key, as 32 bits with a sign.
pub fn i32_field(v: &Value, key: &str) -> (r: Option<i32>)
    ensures
        r == i32_at(json_view(*v), key@),
{
    let i = i64_field(v, key)?;
    if -2147483648 <= i && i <= 2147483647 {
        Some(i as i32)
    } else {
        None
    }
}

/// Reads the integer under a key, as 32 bits without a sign.
pub fn u32_field(v: &Value, key: &str) -> (r: Option<u32>)
    ensures
        r == u32_at(json_view(*v), key@),
{
    let i = i64_field(v, key)?;
    if 0 <= i && i <= 4294967295 {
        Some(i as u32)
    } else {
        None
    }
}

} // verus!
