//! JSON values and objects of the `serde_json` crate.
//!
//! The MQTT payload is built as one of the crate's objects and written out
//! by the crate; the attributes that Home Assistant reports come as the
//! crate's values. Nothing here looks inside either.

use vstd::prelude::*;

verus! {

/// The crate's `Value`: any JSON value.
#[verifier::external_type_specification]
#[verifier::external_body]
pub struct ExJsonNode(serde_json::Value);

/// The crate's `Map`: the members of a JSON object.
#[verifier::external_type_specification]
#[verifier::external_body]
#[verifier::reject_recursive_types(K)]
#[verifier::reject_recursive_types(V)]
pub struct ExJsonObject<K, V>(serde_json::Map<K, V>);

/// The members of an object that are strings: the text of each, by its key.
pub uninterp spec fn text_members(object: serde_json::Map<String, serde_json::Value>) -> Map<
    Seq<char>,
    Seq<char>,
>;

/// No members at all.
pub open spec fn no_members() -> Map<Seq<char>, Seq<char>> {
    Map::empty()
}

/// Whether every member of an object is a string.
pub uninterp spec fn only_text(object: serde_json::Map<String, serde_json::Value>) -> bool;

/// The JSON text of an object whose members are the given strings. The
/// crate keeps an object's keys sorted, so the text depends on the members
/// alone.
pub uninterp spec fn object_text(members: Map<Seq<char>, Seq<char>>) -> Seq<char>;

/// The content of a value that is a string; `None` for any other value.
pub uninterp spec fn string_content(value: serde_json::Value) -> Option<Seq<char>>;

/// The JSON text of a value.
pub uninterp spec fn value_text(value: serde_json::Value) -> Seq<char>;

/// Calls `Map::new`: an object without members.
#[verifier::external_body]
pub(crate) fn new_object() -> (object: serde_json::Map<String, serde_json::Value>)
    ensures
        text_members(object) == no_members(),
        only_text(object),
{
    serde_json::Map::new()
}

/// Calls `Map::insert` with a string value: the member is added, or
/// replaced where the key was there.
#[verifier::external_body]
pub(crate) fn insert_text(object: &mut serde_json::Map<String, serde_json::Value>, key: String, text: String)
    ensures
        text_members(*final(object)) == text_members(*old(object)).insert(key@, text@),
        only_text(*old(object)) ==> only_text(*final(object)),
{
    object.insert(key, serde_json::Value::String(text));
}

/// Writes an object out as `Value::Object` does through `to_string`.
#[verifier::external_body]
pub(crate) fn write_object(object: serde_json::Map<String, serde_json::Value>) -> (text: String)
    requires
        only_text(object),
    ensures
        text@ == object_text(text_members(object)),
{
    serde_json::Value::Object(object).to_string()
}

/// Calls `Value::as_str` and copies what it yields.
#[verifier::external_body]
pub(crate) fn read_string(value: &serde_json::Value) -> (content: Option<String>)
    ensures
        crate::utils::option_text(content) == string_content(*value),
{
    value.as_str().map(String::from)
}

/// Writes a value out with its `Display` impl, as `to_string` does.
#[verifier::external_body]
pub(crate) fn write_value(value: &serde_json::Value) -> (text: String)
    ensures
        text@ == value_text(*value),
{
    value.to_string()
}

} // verus!
