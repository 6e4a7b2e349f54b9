//! JSON as the outside world speaks it. A document is held as a
//! `serde_json::Value`, which the verifier cannot look into: what is known of
//! one is what the declarations below say, and they are taken on trust.

use vstd::prelude::*;
use serde_json::Value;

verus! {

/// `serde_json::Value`: a JSON document, carried without being looked into.
#[verifier::external_type_specification]
#[verifier::external_body]
pub struct ExValue(serde_json::Value);

/// `serde_json::Error`: why a text is not JSON, or a value not writable.
#[verifier::external_type_specification]
#[verifier::external_body]
pub struct ExJsonError(serde_json::Error);

/// The document that a text is the JSON of, or nothing where the parser
/// refuses the text.
pub uninterp spec fn json_document(text: Seq<char>) -> Option<Value>;

/// Whether a value is a JSON object.
pub uninterp spec fn json_is_object(value: Value) -> bool;

/// Whether a value is JSON's `null`.
pub uninterp spec fn json_is_null(value: Value) -> bool;

/// What a value holds under a key, as indexing the value by the key gives it.
pub uninterp spec fn json_member(value: Value, key: Seq<char>) -> Value;

/// The JSON text of an array of values, or nothing where they cannot be
/// written.
pub uninterp spec fn json_text(values: Seq<Value>) -> Option<Seq<char>>;

/// `serde_json::from_str`, asked for a `Value`. What it returns depends on the
/// text alone: the document, or an error where it refuses the text.
#[verifier::external_body]
pub(crate) fn parse_document(text: &str) -> (parsed: Result<Value, serde_json::Error>)
    ensures
        match parsed {
            Ok(document) => json_document(text@) == Some(document),
            Err(_) => json_document(text@) is None,
        },
{
    serde_json::from_str::<Value>(text)
}

/// `Value::is_object`: a function of the value.
pub assume_specification[ Value::is_object ](value: &Value) -> (is_object: bool)
    ensures
        is_object == json_is_object(*value),
;

/// `Value::is_null`: a function of the value.
pub assume_specification[ Value::is_null ](value: &Value) -> (is_null: bool)
    ensures
        is_null == json_is_null(*value),
;

/// Indexing a `Value` by a key for writing, and `Value::take` on the place
/// found: the member moves out. Both depend on the value and the key alone.
/// Indexing panics on a value that is neither an object nor `null`, so such
/// values are not admitted.
#[verifier::external_body]
pub(crate) fn take_member(value: &mut Value, key: &str) -> (member: Value)
    requires
        json_is_object(*old(value)) || json_is_null(*old(value)),
    ensures
        member == json_member(*old(value), key@),
{
    value[key].take()
}

/// `serde_json::to_string`, on a list of values. What it returns depends on
/// the values alone: the text of a JSON array, or an error where a value
/// cannot be written.
#[verifier::external_body]
pub(crate) fn write_array(values: &Vec<Value>) -> (written: Result<String, serde_json::Error>)
    ensures
        match written {
            Ok(text) => json_text(values@) == Some(text@),
            Err(_) => json_text(values@) is None,
        },
{
    serde_json::to_string(values)
}

/// Why a response body yields no geometry.
#[derive(Clone, Copy, Debug, PartialEq, Eq, Structural)]
pub enum DecodeError {
    /// The body could not be read as JSON.
    Malformed,
    /// The body is JSON, but of a kind that has no members.
    NotAnObject,
}

/// The key under which a response carries its payload.
pub const DATA_KEY: &'static str = "data";

/// The payload of a document: what it holds under `DATA_KEY`. Only an object
/// has members; `null` passes for an object without any.
pub open spec fn payload_of(document: Value) -> Result<Value, DecodeError> {
    if json_is_object(document) || json_is_null(document) {
        Ok(json_member(document, DATA_KEY@))
    } else {
        Err(DecodeError::NotAnObject)
    }
}

/// The geometry that a response body carries.
pub open spec fn geometry_of(body: Seq<char>) -> Result<Value, DecodeError> {
    match json_document(body) {
        Some(document) => payload_of(document),
        None => Err(DecodeError::Malformed),
    }
}

/// Takes the payload out of a document.
pub fn extract_payload(document: Value) -> (payload: Result<Value, DecodeError>)
    ensures
        payload == payload_of(document),
{
    let mut document = document;
    if document.is_object() || document.is_null() {
        Ok(take_member(&mut document, DATA_KEY))
    } else {
        Err(DecodeError::NotAnObject)
    }
}

/// Reads the geometry that a response body carries.
pub fn decode_geometry(body: &str) -> (geometry: Result<Value, DecodeError>)
    ensures
        geometry == geometry_of(body@),
{
    match parse_document(body) {
        Ok(document) => extract_payload(document),
        Err(_) => Err(DecodeError::Malformed),
    }
}

} // verus!
