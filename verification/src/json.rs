//! JSON values that the library carries without reading them.
use vstd::prelude::*;
use std::collections::BTreeMap;

verus! {

/// `serde_json::Value`: payload fragments (metadata, forward-compatible extra
/// fields, schemas) that pass through the library unread.
#[verifier::external_type_specification]
#[verifier::external_body]
pub struct ExJsonValue(serde_json::Value);

/// `<serde_json::Value as Clone>::clone`, a derived clone: the copy is the same value.
pub assume_specification[ <serde_json::Value as Clone>::clone ](value: &serde_json::Value) -> (r:
    serde_json::Value)
    ensures
        r == *value,
;

/// One entry of a JSON object as the library reads it: a boolean, a string,
/// or a value of another kind.
pub enum JsonEntry {
    Flag(bool),
    Text(Seq<char>),
    Other,
}

/// What the library reads of a JSON value: null, a string, an object's
/// entries, or a value of another kind.
pub enum JsonView {
    Null,
    Text(Seq<char>),
    Object(Map<Seq<char>, JsonEntry>),
    Other,
}

/// What a JSON value holds.
pub uninterp spec fn json_view(value: serde_json::Value) -> JsonView;

/// The entries of a JSON value that is an object, by key; `None` for a value
/// of any other kind.
pub open spec fn json_object(value: serde_json::Value) -> Option<Map<Seq<char>, JsonEntry>> {
    match json_view(value) {
        JsonView::Object(entries) => Some(entries),
        _ => None,
    }
}

/// `after` is `before` with `key` set to the boolean `flag` when `before` is
/// an object, and `before` itself otherwise.
pub open spec fn with_flag(before: serde_json::Value, after: serde_json::Value, key: Seq<char>, flag: bool) -> bool {
    match json_object(before) {
        Some(entries) => json_object(after) == Some(entries.insert(key, JsonEntry::Flag(flag))),
        None => after == before,
    }
}

/// `after` is `before` with `key` set to the string `text` when `before` is an
/// object without that key, and `before` itself otherwise.
pub open spec fn with_default_text(before: serde_json::Value, after: serde_json::Value, key: Seq<char>, text: Seq<char>) -> bool {
    match json_object(before) {
        Some(entries) => if entries.dom().contains(key) {
            after == before
        } else {
            json_object(after) == Some(entries.insert(key, JsonEntry::Text(text)))
        },
        None => after == before,
    }
}

/// Sets `key` to the boolean `flag` in a JSON object: `serde_json::Map::insert`
/// on the `Value::Object` variant, which replaces any value the key had.
/// Reports whether `value` was an object; a value of any other kind is left as
/// it was.
#[verifier::external_body]
pub fn set_object_flag(value: &mut serde_json::Value, key: &str, flag: bool) -> (was_object: bool)
    ensures
        was_object <==> json_object(*old(value)) is Some,
        with_flag(*old(value), *final(value), key@, flag),
{
    match value {
        serde_json::Value::Object(map) => {
            map.insert(key.to_string(), serde_json::Value::Bool(flag));
            true
        },
        _ => false,
    }
}

/// Sets `key` to the string `text` in a JSON object unless the key is already
/// there: `serde_json::Map::entry(..).or_insert_with(..)` on the
/// `Value::Object` variant, which leaves an occupied entry as it is. Reports
/// whether `value` was an object; a value of any other kind is left as it was.
#[verifier::external_body]
pub fn default_object_text(value: &mut serde_json::Value, key: &str, text: &str) -> (was_object: bool)
    ensures
        was_object <==> json_object(*old(value)) is Some,
        with_default_text(*old(value), *final(value), key@, text@),
{
    match value {
        serde_json::Value::Object(map) => {
            map.entry(key.to_string()).or_insert_with(|| serde_json::Value::String(text.to_string()));
            true
        },
        _ => false,
    }
}

/// A JSON value told apart as null, a string, or anything else.
pub enum JsonScalar {
    Null,
    Text(String),
    Other,
}

/// Tells the variants of a `serde_json::Value` apart: `Value::Null`,
/// `Value::String` (its text), and the rest.
#[verifier::external_body]
pub fn json_scalar(value: &serde_json::Value) -> (r: JsonScalar)
    ensures
        match r {
            JsonScalar::Null => json_view(*value) is Null,
            JsonScalar::Text(text) => json_view(*value) == JsonView::Text(text@),
            JsonScalar::Other => !(json_view(*value) is Null) && !(json_view(*value) is Text),
        },
{
    match value {
        serde_json::Value::Null => JsonScalar::Null,
        serde_json::Value::Bool(_) => JsonScalar::Other,
        serde_json::Value::Number(_) => JsonScalar::Other,
        serde_json::Value::String(text) => JsonScalar::Text(text.clone()),
        serde_json::Value::Array(_) => JsonScalar::Other,
        serde_json::Value::Object(_) => JsonScalar::Other,
    }
}

/// Some key of the map has the text `key`.
pub open spec fn has_key(extra: Map<String, serde_json::Value>, key: Seq<char>) -> bool {
    exists|k: String| k@ == key && #[trigger] extra.contains_key(k)
}

/// The key of the map whose text is `key` (there is at most one such key).
pub open spec fn key_named(extra: Map<String, serde_json::Value>, key: Seq<char>) -> String {
    choose|k: String| k@ == key && #[trigger] extra.contains_key(k)
}

/// The text of field `key` of a map of extra fields, when the field is there
/// and is a JSON string.
pub open spec fn extra_text_spec(extra: Map<String, serde_json::Value>, key: Seq<char>) -> Option<Seq<char>> {
    if has_key(extra, key) {
        match json_view(extra[key_named(extra, key)]) {
            JsonView::Text(text) => Some(text),
            _ => None,
        }
    } else {
        None
    }
}

/// `BTreeMap::get` on a map of extra fields, looked up by a text key.
#[verifier::external_body]
pub fn extra_field<'a>(extra: &'a BTreeMap<String, serde_json::Value>, key: &str) -> (r: Option<&'a serde_json::Value>)
    ensures
        r is Some <==> has_key(extra@, key@),
        r matches Some(v) ==> *v == extra@[key_named(extra@, key@)],
{
    extra.get(key)
}

/// `serde_json::Value::as_str`: the text of a JSON string, `None` for any other value.
#[verifier::external_body]
pub fn json_str(value: &serde_json::Value) -> (r: Option<&str>)
    ensures
        r is Some <==> json_view(*value) is Text,
        r matches Some(text) ==> json_view(*value) == JsonView::Text(text@),
{
    value.as_str()
}

/// The text of field `key` of a map of extra fields, when it is a JSON string.
pub fn extra_text<'a>(extra: &'a BTreeMap<String, serde_json::Value>, key: &str) -> (r: Option<&'a str>)
    ensures
        r is Some <==> extra_text_spec(extra@, key@) is Some,
        r matches Some(text) ==> extra_text_spec(extra@, key@) == Some(text@),
{
    match extra_field(extra, key) {
        Some(v) => json_str(v),
        None => None,
    }
}

/// The compact JSON text `serde_json::Value`'s `Display` writes for a value.
pub uninterp spec fn json_compact(value: serde_json::Value) -> Seq<char>;

/// `serde_json::Value::to_string`: the value as compact JSON text.
#[verifier::external_body]
pub fn json_text(value: &serde_json::Value) -> (r: String)
    ensures
        r@ == json_compact(*value),
{
    value.to_string()
}

/// The JSON string literal `serde_json::to_string` writes for a text: the
/// text in double quotes, with the characters JSON requires escaped.
pub uninterp spec fn json_quoted(text: Seq<char>) -> Seq<char>;

/// `serde_json::to_string` on a string slice. Serializing a `str` into a
/// byte buffer cannot fail, so the result is always the quoted literal.
#[verifier::external_body]
pub fn json_quote(text: &str) -> (r: String)
    ensures
        r@ == json_quoted(text@),
{
    match serde_json::to_string(text) {
        Ok(quoted) => quoted,
        Err(_) => String::new(),
    }
}

} // verus!
