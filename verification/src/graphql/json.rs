//! The JSON documents that travel in both directions, and the parts of
//! `serde_json` that read and write them.

use vstd::prelude::*;

verus! {

/// The mathematical content of a JSON document.
///
/// Numbers carry no value here: nothing in this crate reads one.
pub enum JsonValue {
    Null,
    Bool(bool),
    Number,
    Text(Seq<char>),
    Array(Seq<JsonValue>),
    Object(Map<Seq<char>, JsonValue>),
}

impl JsonValue {
    /// The member stored under `key`, if this is an object that has one.
    pub open spec fn member(self, key: Seq<char>) -> Option<JsonValue> {
        match self {
            JsonValue::Object(members) => if members.contains_key(key) {
                Some(members[key])
            } else {
                None
            },
            _ => None,
        }
    }
}

/// Makes `serde_json::Value`, a parsed JSON document, known to the verifier
/// as an opaque type.
#[verifier::external_type_specification]
#[verifier::external_body]
pub struct ExValue(serde_json::Value);

/// What a parsed document holds.
pub uninterp spec fn json_content(value: serde_json::Value) -> JsonValue;

/// What `serde_json::from_str` makes of a text: the document it reads, or the
/// message of the error it reports.
pub uninterp spec fn json_parsed(text: Seq<char>) -> Result<JsonValue, Seq<char>>;

/// The JSON string literal that `serde_json::to_string` writes for a string:
/// the text between double quotes, with the escapes JSON asks for.
pub uninterp spec fn json_string_literal(text: Seq<char>) -> Seq<char>;

/// Calls `serde_json::from_str` for a `serde_json::Value`.
///
/// Trusted: the outcome depends on the text alone. On success the document is
/// the one named by [`json_parsed`]; on failure the returned text is the
/// error's own message.
#[verifier::external_body]
pub(crate) fn parse_json(text: &str) -> (r: Result<serde_json::Value, String>)
    ensures
        match r {
            Ok(value) => json_parsed(text@) == Ok::<JsonValue, Seq<char>>(json_content(value)),
            Err(message) => json_parsed(text@) == Err::<JsonValue, Seq<char>>(message@),
        },
{
    serde_json::from_str::<serde_json::Value>(text).map_err(|e| e.to_string())
}

/// Calls `serde_json::Value::get` with a string key.
///
/// Trusted: the result is the member stored under `key` when the value is an
/// object that has one, and `None` otherwise.
#[verifier::external_body]
pub(crate) fn json_member<'a>(value: &'a serde_json::Value, key: &str) -> (r: Option<
    &'a serde_json::Value,
>)
    ensures
        match r {
            Some(found) => json_content(*value).member(key@) == Some(json_content(*found)),
            None => json_content(*value).member(key@) is None,
        },
{
    value.get(key)
}

/// Calls `serde_json::Value::as_str`.
///
/// Trusted: the result is the text of a string value, and `None` for any other
/// value.
#[verifier::external_body]
pub(crate) fn json_text<'a>(value: &'a serde_json::Value) -> (r: Option<&'a str>)
    ensures
        match r {
            Some(text) => json_content(*value) == JsonValue::Text(text@),
            None => !(json_content(*value) is Text),
        },
{
    value.as_str()
}

/// Calls `serde_json::Value::as_array`.
///
/// Trusted: the result holds the elements of an array value in order, and is
/// `None` for any other value.
#[verifier::external_body]
pub(crate) fn json_items<'a>(value: &'a serde_json::Value) -> (r: Option<
    &'a Vec<serde_json::Value>,
>)
    ensures
        match r {
            Some(items) => json_content(*value) == JsonValue::Array(
                items@.map_values(|item: serde_json::Value| json_content(item)),
            ),
            None => !(json_content(*value) is Array),
        },
{
    value.as_array()
}

/// Calls `serde_json::Value::is_null`.
///
/// Trusted: the result tells whether the value is JSON's `null`.
#[verifier::external_body]
pub(crate) fn json_is_null(value: &serde_json::Value) -> (r: bool)
    ensures
        r == (json_content(*value) is Null),
{
    value.is_null()
}

/// Calls `serde_json::Value::is_object`.
///
/// Trusted: the result tells whether the value is a JSON object.
#[verifier::external_body]
pub(crate) fn json_is_object(value: &serde_json::Value) -> (r: bool)
    ensures
        r == (json_content(*value) is Object),
{
    value.is_object()
}

/// Calls `serde_json::to_string` on a string.
///
/// Trusted: the call succeeds, since writing a string into memory has no way
/// to fail, and its result is the literal named by [`json_string_literal`].
#[verifier::external_body]
pub(crate) fn json_quote(text: &str) -> (r: Option<String>)
    ensures
        match r {
            Some(literal) => literal@ == json_string_literal(text@),
            None => false,
        },
{
    serde_json::to_string(text).ok()
}

} // verus!
