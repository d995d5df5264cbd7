//! What the preset compiler needs of JSON, through `serde_json`.
//!
//! Nothing here is proved. Each contract states what the source of
//! `serde_json` shows of the function it stands for, over [`JsonContent`],
//! the content of a JSON value as mathematics.

use vstd::prelude::*;

verus! {

/// The content of a JSON value.
pub enum JsonContent {
    Null,
    Bool(bool),
    /// A number written without fraction or exponent, within the range that
    /// `serde_json` keeps as an integer.
    Integer(int),
    /// Any other number.
    Float,
    Text(Seq<char>),
    Array(Seq<JsonContent>),
    Object(Map<Seq<char>, JsonContent>),
}

/// `serde_json::Value`, a JSON value of any kind. Opaque here.
#[verifier::external_type_specification]
#[verifier::external_body]
pub struct ExValue(serde_json::Value);

/// `serde_json::Map`, the members of a JSON object. Opaque here.
#[verifier::external_type_specification]
#[verifier::external_body]
#[verifier::reject_recursive_types(K)]
#[verifier::reject_recursive_types(V)]
pub struct ExMap<K, V>(serde_json::Map<K, V>);

/// `serde_json::Error`, why a text is not the JSON that was asked for.
/// Opaque here.
#[verifier::external_type_specification]
#[verifier::external_body]
pub struct ExError(serde_json::Error);

/// The content of a `serde_json::Value`.
pub uninterp spec fn value_content(value: serde_json::Value) -> JsonContent;

/// The members of a `serde_json::Map`: the content of the value under each
/// key that has one.
pub uninterp spec fn object_content(object: serde_json::Map<String, serde_json::Value>) -> Map<
    Seq<char>,
    JsonContent,
>;

/// The members of the JSON object that a text is, where it is one: what
/// `serde_json::from_str` makes of the text when asked for a map.
pub uninterp spec fn parsed_object(text: Seq<char>) -> Option<Map<Seq<char>, JsonContent>>;

/// `serde_json::from_str`, asked for a `serde_json::Map`. It reads the whole
/// text as one JSON object and fails on anything else. The result is a
/// function of the text alone, which [`parsed_object`] names.
#[verifier::external_body]
pub(crate) fn parse_object(text: &str) -> (parsed: Result<
    serde_json::Map<String, serde_json::Value>,
    serde_json::Error,
>)
    ensures
        match parsed {
            Ok(object) => parsed_object(text@) == Some(object_content(object)),
            Err(_) => parsed_object(text@) is None,
        },
{
    serde_json::from_str(text)
}

/// `serde_json::Map::get`: the value under a key, if the key has one.
#[verifier::external_body]
pub(crate) fn object_get<'a>(object: &'a serde_json::Map<String, serde_json::Value>, key: &str) -> (found:
    Option<&'a serde_json::Value>)
    ensures
        match found {
            Some(value) => object_content(*object).contains_key(key@) && object_content(*object)[key@]
                == value_content(*value),
            None => !object_content(*object).contains_key(key@),
        },
{
    object.get(key)
}

/// `serde_json::Value::as_str`: the text of a string value, and nothing of
/// a value of another kind.
#[verifier::external_body]
pub(crate) fn value_as_str(value: &serde_json::Value) -> (text: Option<&str>)
    ensures
        match text {
            Some(text) => value_content(*value) == JsonContent::Text(text@),
            None => !(value_content(*value) is Text),
        },
{
    value.as_str()
}

/// `serde_json::Value::as_object`: the members of an object value, and
/// nothing of a value of another kind.
#[verifier::external_body]
pub(crate) fn value_as_object(value: &serde_json::Value) -> (object: Option<
    &serde_json::Map<String, serde_json::Value>,
>)
    ensures
        match object {
            Some(object) => value_content(*value) == JsonContent::Object(object_content(*object)),
            None => !(value_content(*value) is Object),
        },
{
    value.as_object()
}

/// `serde_json::Value::as_i64`: the number of an integer value that fits
/// in an `i64`, and nothing of any other value.
#[verifier::external_body]
pub(crate) fn value_as_i64(value: &serde_json::Value) -> (number: Option<i64>)
    ensures
        number == match value_content(*value) {
            JsonContent::Integer(n) => if i64::MIN <= n <= i64::MAX {
                Some(n as i64)
            } else {
                None
            },
            _ => None,
        },
{
    value.as_i64()
}

} // verus!
