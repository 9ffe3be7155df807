//! Access to JSON documents through serde_json's `Value`: parsing text,
//! reading members, and building values. Each outside call has a name for
//! what it returns; the rules built on them are verified here.
use vstd::prelude::*;

use crate::text::view_opt;

verus! {

/// What serde_json::from_str makes of a text, if it parses.
pub uninterp spec fn json_of_text(s: Seq<char>) -> Option<serde_json::Value>;

/// What serde_json::from_slice makes of bytes, if they parse.
pub uninterp spec fn json_of_bytes(b: Seq<u8>) -> Option<serde_json::Value>;

/// What serde_json::Value::get returns for a string key.
pub uninterp spec fn json_get(v: serde_json::Value, key: Seq<char>) -> Option<serde_json::Value>;

/// What serde_json::Value::as_str returns.
pub uninterp spec fn json_as_str(v: serde_json::Value) -> Option<Seq<char>>;

/// What serde_json::Value::as_u64 returns.
pub uninterp spec fn json_as_u64(v: serde_json::Value) -> Option<u64>;

/// What serde_json::Value::as_array returns.
pub uninterp spec fn json_as_array(v: serde_json::Value) -> Option<Seq<serde_json::Value>>;

/// What serde_json::Value::is_null returns.
pub uninterp spec fn json_is_null(v: serde_json::Value) -> bool;

/// The members of a `Value::Object`, or none for another kind of value.
pub uninterp spec fn json_as_object(v: serde_json::Value) -> Option<
    serde_json::Map<String, serde_json::Value>,
>;

/// What serde_json::Map::len returns.
pub uninterp spec fn json_map_len(m: serde_json::Map<String, serde_json::Value>) -> nat;

/// What serde_json::to_vec writes for a value.
pub uninterp spec fn json_bytes_of(v: serde_json::Value) -> Seq<u8>;

/// Relies on serde_json::from_str.
#[verifier::external_body]
pub(crate) fn parse_json_text(s: &str) -> (r: Option<serde_json::Value>)
    ensures
        r == json_of_text(s@),
{
    serde_json::from_str::<serde_json::Value>(s).ok()
}

/// Relies on serde_json::from_slice.
#[verifier::external_body]
pub(crate) fn parse_json_bytes(b: &[u8]) -> (r: Option<serde_json::Value>)
    ensures
        r == json_of_bytes(b@),
{
    serde_json::from_slice::<serde_json::Value>(b).ok()
}

/// Relies on serde_json::Value::get and its Clone: a copy of the member.
#[verifier::external_body]
pub(crate) fn json_member(v: &serde_json::Value, key: &str) -> (r: Option<serde_json::Value>)
    ensures
        r == json_get(*v, key@),
{
    v.get(key).cloned()
}

/// Relies on serde_json::Value::as_str.
#[verifier::external_body]
pub(crate) fn value_str(v: &serde_json::Value) -> (r: Option<String>)
    ensures
        view_opt(r) == json_as_str(*v),
{
    v.as_str().map(|s| s.to_string())
}

/// Relies on serde_json::Value::as_u64.
#[verifier::external_body]
pub(crate) fn value_u64(v: &serde_json::Value) -> (r: Option<u64>)
    ensures
        r == json_as_u64(*v),
{
    v.as_u64()
}

/// Relies on serde_json::Value::as_array and Vec's Clone.
#[verifier::external_body]
pub(crate) fn value_items(v: &serde_json::Value) -> (r: Option<Vec<serde_json::Value>>)
    ensures
        match r {
            Some(items) => json_as_array(*v) == Some(items@),
            None => json_as_array(*v) is None,
        },
{
    v.as_array().cloned()
}

/// Relies on serde_json::Value::is_null.
#[verifier::external_body]
pub(crate) fn value_is_null(v: &serde_json::Value) -> (r: bool)
    ensures
        r == json_is_null(*v),
{
    v.is_null()
}

/// Relies on serde_json::Value's variants: the members of an object.
#[verifier::external_body]
pub(crate) fn as_object(v: serde_json::Value) -> (r: Option<
    serde_json::Map<String, serde_json::Value>,
>)
    ensures
        r == json_as_object(v),
{
    match v {
        serde_json::Value::Object(members) => Some(members),
        serde_json::Value::Null => None,
        serde_json::Value::Bool(_) => None,
        serde_json::Value::Number(_) => None,
        serde_json::Value::String(_) => None,
        serde_json::Value::Array(_) => None,
    }
}

/// Relies on serde_json::Map::new: a map with no members.
#[verifier::external_body]
pub(crate) fn new_map() -> (r: serde_json::Map<String, serde_json::Value>)
    ensures
        json_map_len(r) == 0,
{
    serde_json::Map::new()
}

/// Relies on serde_json::Value::Object: an object with the given members.
#[verifier::external_body]
pub(crate) fn object_value(m: serde_json::Map<String, serde_json::Value>) -> (r: serde_json::Value)
    ensures
        json_as_object(r) == Some(m),
{
    serde_json::Value::Object(m)
}

/// Relies on serde_json::Value::String: a string value.
#[verifier::external_body]
pub(crate) fn json_string(s: String) -> (r: serde_json::Value)
    ensures
        json_as_str(r) == Some(s@),
{
    serde_json::Value::String(s)
}

/// Relies on serde_json::Value::Null.
#[verifier::external_body]
pub(crate) fn json_null() -> (r: serde_json::Value)
    ensures
        json_is_null(r),
{
    serde_json::Value::Null
}

/// Relies on serde_json::Value::Array: an array of the given elements.
#[verifier::external_body]
pub(crate) fn json_array(items: Vec<serde_json::Value>) -> (r: serde_json::Value)
    ensures
        json_as_array(r) == Some(items@),
{
    serde_json::Value::Array(items)
}

/// Relies on serde_json::Map's FromIterator (each member inserted in turn,
/// a later key replacing an earlier one) and serde_json::Value::Object.
#[verifier::external_body]
pub(crate) fn json_object(members: Vec<(String, serde_json::Value)>) -> (r: serde_json::Value)
    ensures
        json_as_object(r) is Some,
        forall|i: int|
            0 <= i < members@.len() && (forall|j: int|
                0 <= j < members@.len() && j != i ==> members@[j].0@ != members@[i].0@)
                ==> json_get(r, (#[trigger] members@[i]).0@) == Some(members@[i].1),
{
    serde_json::Value::Object(members.into_iter().collect())
}

/// Relies on serde_json::to_vec, which cannot fail for a `Value`.
#[verifier::external_body]
pub(crate) fn json_bytes(v: &serde_json::Value) -> (r: Vec<u8>)
    ensures
        r@ == json_bytes_of(*v),
{
    serde_json::to_vec(v).unwrap_or_default()
}

/// The string member `key` of a value.
pub open spec fn member_str_spec(v: serde_json::Value, key: Seq<char>) -> Option<Seq<char>> {
    match json_get(v, key) {
        Some(m) => json_as_str(m),
        None => None,
    }
}

/// The unsigned integer member `key` of a value.
pub open spec fn member_u64_spec(v: serde_json::Value, key: Seq<char>) -> Option<u64> {
    match json_get(v, key) {
        Some(m) => json_as_u64(m),
        None => None,
    }
}

/// The elements of the array member `key` of a value.
pub open spec fn member_items_spec(v: serde_json::Value, key: Seq<char>) -> Option<
    Seq<serde_json::Value>,
> {
    match json_get(v, key) {
        Some(m) => json_as_array(m),
        None => None,
    }
}

/// A member counts as present when it exists and is not null.
pub open spec fn member_present_spec(v: serde_json::Value, key: Seq<char>) -> bool {
    match json_get(v, key) {
        Some(m) => !json_is_null(m),
        None => false,
    }
}

/// An empty JSON object.
pub open spec fn is_empty_object(v: serde_json::Value) -> bool {
    match json_as_object(v) {
        Some(m) => json_map_len(m) == 0,
        None => false,
    }
}

pub fn member_str(v: &serde_json::Value, key: &str) -> (r: Option<String>)
    ensures
        view_opt(r) == member_str_spec(*v, key@),
{
    match json_member(v, key) {
        Some(m) => value_str(&m),
        None => None,
    }
}

pub fn member_u64(v: &serde_json::Value, key: &str) -> (r: Option<u64>)
    ensures
        r == member_u64_spec(*v, key@),
{
    match json_member(v, key) {
        Some(m) => value_u64(&m),
        None => None,
    }
}

pub fn member_items(v: &serde_json::Value, key: &str) -> (r: Option<Vec<serde_json::Value>>)
    ensures
        match r {
            Some(items) => member_items_spec(*v, key@) == Some(items@),
            None => member_items_spec(*v, key@) is None,
        },
{
    match json_member(v, key) {
        Some(m) => value_items(&m),
        None => None,
    }
}

pub fn member_present(v: &serde_json::Value, key: &str) -> (r: bool)
    ensures
        r == member_present_spec(*v, key@),
{
    match json_member(v, key) {
        Some(m) => !value_is_null(&m),
        None => false,
    }
}

/// The empty object `{}`.
pub fn empty_object() -> (r: serde_json::Value)
    ensures
        is_empty_object(r),
{
    object_value(new_map())
}

} // verus!
