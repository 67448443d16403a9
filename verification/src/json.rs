//! JSON objects as the services exchange them, read through `serde_json`.
//! What the logic reads of an object is, for each field, its text where it
//! is a JSON string.

use vstd::prelude::*;

verus! {

#[verifier::external_type_specification]
#[verifier::external_body]
#[verifier::reject_recursive_types(K)]
#[verifier::reject_recursive_types(V)]
pub struct ExJsonMap<K, V>(serde_json::Map<K, V>);

#[verifier::external_type_specification]
#[verifier::external_body]
pub struct ExJsonValue(serde_json::Value);

#[verifier::external_type_specification]
#[verifier::external_body]
pub struct ExJsonError(serde_json::Error);

/// The fields of a JSON object: each name maps to the field's text where the
/// field is a JSON string, and to `None` where it is any other value.
pub uninterp spec fn json_object_fields(object: serde_json::Map<String, serde_json::Value>) -> Map<Seq<char>, Option<Seq<char>>>;

/// The text of a JSON value where it is a JSON string (what
/// `serde_json::Value::as_str` gives).
pub uninterp spec fn json_string_text(value: serde_json::Value) -> Option<Seq<char>>;

/// The fields of the JSON object written in `text`, or `None` where `text`
/// is not a JSON object (what `serde_json::from_str` into an object gives).
pub uninterp spec fn json_object_parse(text: Seq<char>) -> Option<Map<Seq<char>, Option<Seq<char>>>>;

/// Calls `serde_json::from_str` for a `serde_json::Map<String, Value>`. The
/// contract says that the call succeeds exactly where the text's parse is
/// named, and that the object it gives holds the named fields; what that
/// parse is, it leaves to the name.
#[verifier::external_body]
fn json_object_from_str(text: &str) -> (res: Result<serde_json::Map<String, serde_json::Value>, serde_json::Error>)
    ensures
        match res {
            Ok(object) => json_object_parse(text@) == Some(json_object_fields(object)),
            Err(_) => json_object_parse(text@) is None,
        },
{
    serde_json::from_str(text)
}

/// Calls `serde_json::Map::get`: the field's value where the object has a
/// field of that name, `None` where it has not.
#[verifier::external_body]
fn json_object_get<'a>(object: &'a serde_json::Map<String, serde_json::Value>, key: &str) -> (res: Option<&'a serde_json::Value>)
    ensures
        res is Some <==> json_object_fields(*object).dom().contains(key@),
        res matches Some(v) ==> json_object_fields(*object)[key@] == json_string_text(*v),
{
    object.get(key)
}

/// Calls `serde_json::Value::as_str`: the text where the value is a JSON
/// string, else `None`.
#[verifier::external_body]
fn json_value_as_str<'a>(value: &'a serde_json::Value) -> (res: Option<&'a str>)
    ensures
        match res {
            Some(t) => json_string_text(*value) == Some(t@),
            None => json_string_text(*value) is None,
        },
{
    value.as_str()
}

/// Why an answer could not be built from another service's reply.
#[derive(Clone, Copy, Debug, PartialEq, Eq, Structural)]
pub enum AnswerError {
    /// The reply is not a JSON object.
    InvalidJson,
    /// The reply lacks a field that the answer reads.
    MissingField,
}

/// A field's text, or the empty text where the field is not a JSON string.
pub open spec fn text_or_empty(field: Option<Seq<char>>) -> Seq<char> {
    match field {
        Some(t) => t,
        None => Seq::empty(),
    }
}

/// Reads the JSON object written in `text`.
pub fn parse_json_object(text: &str) -> (res: Option<serde_json::Map<String, serde_json::Value>>)
    ensures
        match res {
            Some(object) => json_object_parse(text@) == Some(json_object_fields(object)),
            None => json_object_parse(text@) is None,
        },
{
    match json_object_from_str(text) {
        Ok(object) => Some(object),
        Err(_) => None,
    }
}

/// Whether `object` has a field named `key`.
pub fn has_field(object: &serde_json::Map<String, serde_json::Value>, key: &str) -> (res: bool)
    ensures
        res == json_object_fields(*object).dom().contains(key@),
{
    json_object_get(object, key).is_some()
}

/// The text of the field `key` of `object`, or the empty text where the
/// field is not a JSON string.
pub fn text_field_or_empty(object: &serde_json::Map<String, serde_json::Value>, key: &str) -> (res: String)
    requires
        json_object_fields(*object).dom().contains(key@),
    ensures
        res@ == text_or_empty(json_object_fields(*object)[key@]),
{
    match json_object_get(object, key) {
        Some(value) => match json_value_as_str(value) {
            Some(t) => String::from_str(t),
            None => String::new(),
        },
        None => String::new(),
    }
}

} // verus!
