//! JSON documents, read through `serde_json`.
//!
//! Nothing here is proved: each item states what `serde_json` does, and the
//! rest of the library is proved from these statements.

use vstd::prelude::*;

verus! {

/// `serde_json::Value`, a JSON document in memory. Nothing of its inside is
/// known but what `json_shape` says.
#[verifier::external_type_specification]
#[verifier::external_body]
pub struct ExValue(serde_json::Value);

/// `serde_json::Error`, the parser's complaint. Nothing of its inside is
/// known but what `json_error_text` says.
#[verifier::external_type_specification]
#[verifier::external_body]
pub struct ExError(serde_json::Error);

/// What a JSON value is at its top level.
pub enum JsonShape {
    /// `null`.
    Null,
    /// A string, with its characters.
    Text(Seq<char>),
    /// An array, with its elements in order.
    Array(Seq<serde_json::Value>),
    /// An object, with its members by key.
    Object(Map<Seq<char>, serde_json::Value>),
    /// A boolean or a number.
    Other,
}

/// The top level of `value`: which variant of `serde_json::Value` it is, and
/// what that variant holds.
pub uninterp spec fn json_shape(value: serde_json::Value) -> JsonShape;

/// What `serde_json::from_str` makes of `text` when asked for a
/// `serde_json::Value`: the document, or the parser's error.
pub uninterp spec fn json_parse(text: Seq<char>) -> Result<serde_json::Value, serde_json::Error>;

/// What the `Display` of a `serde_json::Error` prints.
pub uninterp spec fn json_error_text(error: serde_json::Error) -> Seq<char>;

/// Calls `serde_json::from_str` for a `serde_json::Value`. The result is a
/// function of the text alone; the contract only gives it its name.
#[verifier::external_body]
pub(crate) fn parse(text: &str) -> (r: Result<serde_json::Value, serde_json::Error>)
    ensures
        r == json_parse(text@),
{
    serde_json::from_str::<serde_json::Value>(text)
}

/// Formats a `serde_json::Error` with its `Display`. The contract only gives
/// the text its name.
#[verifier::external_body]
pub(crate) fn error_text(error: &serde_json::Error) -> (r: String)
    ensures
        r@ == json_error_text(*error),
{
    error.to_string()
}

/// Calls `serde_json::Value::get` with a string key: the member of that key
/// if `value` is an object that has one, else nothing.
#[verifier::external_body]
pub(crate) fn member<'a>(value: &'a serde_json::Value, key: &str) -> (r: Option<
    &'a serde_json::Value,
>)
    ensures
        match r {
            Some(child) => json_shape(*value) matches JsonShape::Object(members)
                && members.contains_key(key@) && members[key@] == *child,
            None => !(json_shape(*value) matches JsonShape::Object(members)
                && members.contains_key(key@)),
        },
{
    value.get(key)
}

/// `serde_json::Value::is_null` is true of `Value::Null` alone.
pub assume_specification[ serde_json::Value::is_null ](value: &serde_json::Value) -> (r: bool)
    ensures
        r == (json_shape(*value) is Null),
;

/// `serde_json::Value::is_object` is true of `Value::Object` alone.
pub assume_specification[ serde_json::Value::is_object ](value: &serde_json::Value) -> (r: bool)
    ensures
        r == (json_shape(*value) is Object),
;

/// `serde_json::Value::as_str` hands out the string of a `Value::String`, and
/// nothing for any other variant.
pub assume_specification[ serde_json::Value::as_str ](value: &serde_json::Value) -> (r: Option<
    &str,
>)
    ensures
        match r {
            Some(text) => json_shape(*value) == JsonShape::Text(text@),
            None => !(json_shape(*value) is Text),
        },
;

/// `serde_json::Value::as_array` hands out the elements of a `Value::Array`,
/// and nothing for any other variant.
pub assume_specification[ serde_json::Value::as_array ](value: &serde_json::Value) -> (r: Option<
    &Vec<serde_json::Value>,
>)
    ensures
        match r {
            Some(items) => json_shape(*value) == JsonShape::Array(items@),
            None => !(json_shape(*value) is Array),
        },
;

} // verus!
