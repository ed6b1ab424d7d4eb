//! The calls into `serde_json`: building JSON values from rows.

use crate::record::{entries_view, Entries};
use serde_json::Value;
use vstd::prelude::*;

verus! {

/// A dynamically typed value of a row, as `serde_json` represents it. The
/// crate moves such values around and never looks inside one.
#[verifier::external_type_specification]
#[verifier::external_body]
pub struct ExValue(Value);

/// The error with which `serde_json` refuses to read a value as a type.
/// Reading is left to the caller; the crate carries the error.
#[verifier::external_type_specification]
#[verifier::external_body]
pub struct ExJsonError(serde_json::Error);

/// The JSON object that holds the entries `entries`.
pub uninterp spec fn json_object(entries: Entries) -> Value;

/// The JSON array that holds the values `items`, in order.
pub uninterp spec fn json_array(items: Seq<Value>) -> Value;

/// `serde_json::Map::from_iter` under `Value::Object`: the result is the JSON
/// object built from the given entries, and depends on nothing else.
#[verifier::external_body]
pub(crate) fn object_value(entries: Vec<(String, Value)>) -> (object: Value)
    ensures
        object == json_object(entries_view(entries@)),
{
    Value::Object(serde_json::Map::from_iter(entries))
}

/// `Value::Array`: the result is the JSON array of the given values, and
/// depends on nothing else.
#[verifier::external_body]
pub(crate) fn array_value(items: Vec<Value>) -> (array: Value)
    ensures
        array == json_array(items@),
{
    Value::Array(items)
}

/// `to_string` on a `serde_json::Error`: the text that the error displays.
/// Nothing is claimed of it.
#[verifier::external_body]
pub(crate) fn json_error_text(error: &serde_json::Error) -> (text: String) {
    error.to_string()
}

} // verus!
