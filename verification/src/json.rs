//! JSON documents: a mathematical model of them, and access to parsed
//! documents through `serde_json`.

use vstd::prelude::*;
use vstd::string::*;

verus! {

/// A JSON document as a mathematical value. Numbers are not told apart: no
/// response this library reads is judged by one.
pub enum JsonModel {
    Null,
    Bool(bool),
    Number,
    Text(Seq<char>),
    List(Seq<JsonModel>),
    Object(Map<Seq<char>, JsonModel>),
}

#[verifier::external_type_specification]
#[verifier::external_body]
pub struct ExValue(serde_json::Value);

#[verifier::external_type_specification]
#[verifier::external_body]
pub struct ExJsonError(serde_json::Error);

/// The document that a parsed value holds.
pub uninterp spec fn json_model(value: serde_json::Value) -> JsonModel;

/// What the parser makes of bytes: the document, or the diagnostic it
/// rejects them with.
pub uninterp spec fn parsed_json(bytes: Seq<u8>) -> Result<JsonModel, Seq<char>>;

/// The diagnostic that a parse error displays.
pub uninterp spec fn json_error_message(error: serde_json::Error) -> Seq<char>;

/// The documents that a sequence of parsed values holds.
pub open spec fn json_models(values: Seq<serde_json::Value>) -> Seq<JsonModel> {
    Seq::new(values.len(), |i: int| json_model(values[i]))
}

/// The member `key` of an object; nothing for a missing key and for a
/// document that is no object.
pub open spec fn member(document: JsonModel, key: Seq<char>) -> Option<JsonModel> {
    match document {
        JsonModel::Object(members) => if members.contains_key(key) {
            Some(members[key])
        } else {
            None
        },
        _ => None,
    }
}

/// The elements of an array; nothing for any other document.
pub open spec fn elements(document: JsonModel) -> Option<Seq<JsonModel>> {
    match document {
        JsonModel::List(items) => Some(items),
        _ => None,
    }
}

/// The characters of a string; nothing for any other document.
pub open spec fn text(document: JsonModel) -> Option<Seq<char>> {
    match document {
        JsonModel::Text(t) => Some(t),
        _ => None,
    }
}

/// Parses bytes with `serde_json::from_slice` into a `serde_json::Value`.
/// Trusted: the parser's verdict depends on the bytes alone, so it is the
/// named verdict for those bytes.
#[verifier::external_body]
pub(crate) fn parse_json(input: &[u8]) -> (r: Result<serde_json::Value, serde_json::Error>)
    ensures
        match r {
            Ok(value) => parsed_json(input@) == Ok::<JsonModel, Seq<char>>(json_model(value)),
            Err(error) => parsed_json(input@) == Err::<JsonModel, Seq<char>>(
                json_error_message(error),
            ),
        },
{
    serde_json::from_slice::<serde_json::Value>(input)
}

/// Renders a `serde_json::Error` through its `Display` impl. Trusted: the
/// result is the error's diagnostic.
#[verifier::external_body]
pub(crate) fn json_error_text(error: &serde_json::Error) -> (r: String)
    ensures
        r@ == json_error_message(*error),
{
    format!("{}", error)
}

/// Looks a key up with `serde_json::Value::get`. Trusted: an object yields
/// the member stored under the key, if there is one; any other value yields
/// nothing.
#[verifier::external_body]
pub(crate) fn value_get<'a>(value: &'a serde_json::Value, key: &str) -> (r: Option<
    &'a serde_json::Value,
>)
    ensures
        match r {
            Some(found) => member(json_model(*value), key@) == Some(json_model(*found)),
            None => member(json_model(*value), key@) is None,
        },
{
    value.get(key)
}

/// Reads an array with `serde_json::Value::as_array`. Trusted: an array
/// yields its elements in order; any other value yields nothing.
#[verifier::external_body]
pub(crate) fn value_as_array<'a>(value: &'a serde_json::Value) -> (r: Option<
    &'a Vec<serde_json::Value>,
>)
    ensures
        match r {
            Some(items) => elements(json_model(*value)) == Some(json_models(items@)),
            None => elements(json_model(*value)) is None,
        },
{
    value.as_array()
}

/// Reads a string with `serde_json::Value::as_str`. Trusted: a string yields
/// its characters; any other value yields nothing.
#[verifier::external_body]
pub(crate) fn value_as_str<'a>(value: &'a serde_json::Value) -> (r: Option<&'a str>)
    ensures
        match r {
            Some(s) => text(json_model(*value)) == Some(s@),
            None => text(json_model(*value)) is None,
        },
{
    value.as_str()
}

} // verus!
