//! JSON objects, as `serde_json` keeps them, and what the contracts of this crate see of them.

use vstd::prelude::*;

verus! {

/// `serde_json::Value`, which is carried and copied but never looked into.
#[verifier::external_type_specification]
#[verifier::external_body]
pub struct ExValue(serde_json::Value);

/// `serde_json::Map`; what one holds is named by [`members`].
#[verifier::external_type_specification]
#[verifier::external_body]
#[verifier::reject_recursive_types(K)]
#[verifier::reject_recursive_types(V)]
pub struct ExMap<K, V>(serde_json::Map<K, V>);

/// A JSON object.
pub type JsonObject = serde_json::Map<String, serde_json::Value>;

/// One JSON value as contracts see it.
pub enum JsonView {
    Null,
    Bool(bool),
    Int(int),
    Text(Seq<char>),
    /// A value of any other kind (a fraction, a list, an object), taken as it is.
    Other(serde_json::Value),
}

/// Keys and their values.
pub type Members = Map<Seq<char>, JsonView>;

/// What a `serde_json::Map` holds: each key with its value. A key occurs once, and the order in
/// which the map lists its keys is left out.
pub uninterp spec fn members(object: JsonObject) -> Map<Seq<char>, JsonView>;

/// An optional text as JSON: the text, or null.
pub open spec fn text_or_null(text: Option<Seq<char>>) -> JsonView {
    match text {
        Some(s) => JsonView::Text(s),
        None => JsonView::Null,
    }
}

/// An optional flag as JSON: the flag, or null.
pub open spec fn flag_or_null(flag: Option<bool>) -> JsonView {
    match flag {
        Some(b) => JsonView::Bool(b),
        None => JsonView::Null,
    }
}

/// An optional count as JSON: the number, or null.
pub open spec fn count_or_null(count: Option<i64>) -> JsonView {
    match count {
        Some(n) => JsonView::Int(n as int),
        None => JsonView::Null,
    }
}

/// `serde_json::Map::new`: an object without members.
#[verifier::external_body]
pub(crate) fn empty_object() -> (object: JsonObject)
    ensures
        members(object) == Members::empty(),
{
    serde_json::Map::new()
}

/// `serde_json::Map::insert` of a text or null (`Value::from` of an optional `&str`): the key
/// then has that value, whatever it had before, and the other members stay.
#[verifier::external_body]
pub(crate) fn put_text(object: &mut JsonObject, key: &str, text: Option<&str>)
    ensures
        members(*final(object)) == members(*old(object)).insert(
            key@,
            text_or_null(crate::text::opt_chars(text)),
        ),
{
    object.insert(key.to_owned(), serde_json::Value::from(text));
}

/// `serde_json::Map::insert` of a flag or null (`Value::from` of an optional `bool`): the key
/// then has that value, whatever it had before, and the other members stay.
#[verifier::external_body]
pub(crate) fn put_flag(object: &mut JsonObject, key: &str, flag: Option<bool>)
    ensures
        members(*final(object)) == members(*old(object)).insert(key@, flag_or_null(flag)),
{
    object.insert(key.to_owned(), serde_json::Value::from(flag));
}

/// `serde_json::Map::insert` of a whole number or null (`Value::from` of an optional `i64`): the
/// key then has that value, whatever it had before, and the other members stay.
#[verifier::external_body]
pub(crate) fn put_count(object: &mut JsonObject, key: &str, count: Option<i64>)
    ensures
        members(*final(object)) == members(*old(object)).insert(key@, count_or_null(count)),
{
    object.insert(key.to_owned(), serde_json::Value::from(count));
}

/// `serde_json::Map::append`: all members of `other` move into `object`; where both have a key,
/// the value of `other` stays.
#[verifier::external_body]
pub(crate) fn merge(object: &mut JsonObject, mut other: JsonObject)
    ensures
        members(*final(object)) == members(*old(object)).union_prefer_right(members(other)),
{
    object.append(&mut other);
}

/// `Clone` of `serde_json::Value`: the copy is the same value.
pub assume_specification[ <serde_json::Value as Clone>::clone ](value: &serde_json::Value) -> (copy:
    serde_json::Value)
    ensures
        copy == *value,
;

} // verus!
