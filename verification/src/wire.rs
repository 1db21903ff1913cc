//! Access to JSON documents through the `json` crate.
//!
//! A parsed document is carried as the crate's own `JsonValue`; nothing in
//! this library looks inside one. What the crate's accessors return is given
//! a name here, and each accessor is reached through one function whose
//! contract is believed, not proved.

use vstd::prelude::*;

verus! {

/// The crate's `JsonValue`, read through the accessors below alone.
#[verifier::external_type_specification]
#[verifier::external_body]
pub struct ExJsonValue(json::JsonValue);

/// What `json::parse` makes of a text: the document, or `None` where the text
/// is not valid JSON.
pub uninterp spec fn parsed(text: Seq<char>) -> Option<json::JsonValue>;

/// Whether `JsonValue::has_key` finds `key` in `value`.
pub uninterp spec fn has_key(value: json::JsonValue, key: Seq<char>) -> bool;

/// The member that indexing `value` by `key` yields.
pub uninterp spec fn member(value: json::JsonValue, key: Seq<char>) -> json::JsonValue;

/// What `JsonValue::as_bool` returns for `value`.
pub uninterp spec fn as_bool(value: json::JsonValue) -> Option<bool>;

/// Whether `JsonValue::is_empty` holds of `value`: null, `false`, zero, or a
/// string, array or object without content.
pub uninterp spec fn is_empty(value: json::JsonValue) -> bool;

/// The text that `Display` writes for `value`: a string's content as it is,
/// any other value in JSON notation.
pub uninterp spec fn text(value: json::JsonValue) -> Seq<char>;

/// Calls `json::parse`. The result is the named document of the text; a
/// parse error is reported as `None`.
#[verifier::external_body]
pub(crate) fn parse(text: &str) -> (document: Option<json::JsonValue>)
    ensures
        document == parsed(text@),
{
    json::parse(text).ok()
}

/// Calls `JsonValue::has_key`.
#[verifier::external_body]
pub(crate) fn value_has_key(value: &json::JsonValue, key: &str) -> (found: bool)
    ensures
        found == has_key(*value, key@),
{
    value.has_key(key)
}

/// Indexes a `JsonValue` by a key; the crate hands out its null value where
/// the key is missing or the value is no object.
#[verifier::external_body]
pub(crate) fn value_member<'a>(value: &'a json::JsonValue, key: &str) -> (found: &'a json::JsonValue)
    ensures
        *found == member(*value, key@),
{
    &value[key]
}

/// Calls `JsonValue::as_bool`.
#[verifier::external_body]
pub(crate) fn value_as_bool(value: &json::JsonValue) -> (flag: Option<bool>)
    ensures
        flag == as_bool(*value),
{
    value.as_bool()
}

/// Calls `JsonValue::is_empty`.
#[verifier::external_body]
pub(crate) fn value_is_empty(value: &json::JsonValue) -> (empty: bool)
    ensures
        empty == is_empty(*value),
{
    value.is_empty()
}

/// Formats a `JsonValue` with its `Display` impl, as `to_string` does.
#[verifier::external_body]
pub(crate) fn value_text(value: &json::JsonValue) -> (rendered: String)
    ensures
        rendered@ == text(*value),
{
    value.to_string()
}

} // verus!
