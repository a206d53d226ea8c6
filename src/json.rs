//! The calls into serde_json that the library makes, with what they promise.
use vstd::prelude::*;

verus! {

#[verifier::external_type_specification]
#[verifier::external_body]
pub struct ExValue(serde_json::Value);

/// What serde_json reports when `text` is not one JSON value: the text of its
/// error, or nothing when the text parses.
pub uninterp spec fn json_value_failure(text: Seq<char>) -> Option<Seq<char>>;

/// What serde_json makes of `text` read as a JSON array: the number of its
/// items, or the text of its error.
pub uninterp spec fn json_list_reading(text: Seq<char>) -> Result<nat, Seq<char>>;

/// Relies on serde_json::from_str::<serde_json::Value> and on the Display of
/// serde_json::Error: whether a text parses, and what the error says when it
/// does not (its kind, line and column), depend on the text alone.
#[verifier::external_body]
pub(crate) fn parse_value(text: &str) -> (r: Result<serde_json::Value, String>)
    ensures
        r is Ok <==> json_value_failure(text@) is None,
        r is Err ==> json_value_failure(text@) == Some(r->Err_0@),
{
    match serde_json::from_str::<serde_json::Value>(text) {
        Ok(v) => Ok(v),
        Err(e) => Err(e.to_string()),
    }
}

/// Relies on serde_json::from_str::<Vec<serde_json::Value>> and on the Display
/// of serde_json::Error: whether a text parses as an array, how many items it
/// holds, and what the error says when it does not parse, depend on the text
/// alone.
#[verifier::external_body]
pub(crate) fn parse_list(text: &str) -> (r: Result<Vec<serde_json::Value>, String>)
    ensures
        match json_list_reading(text@) {
            Ok(n) => r is Ok && r->Ok_0@.len() == n,
            Err(why) => r is Err && r->Err_0@ == why,
        },
{
    match serde_json::from_str::<Vec<serde_json::Value>>(text) {
        Ok(v) => Ok(v),
        Err(e) => Err(e.to_string()),
    }
}

/// Relies on the Display of serde_json::Value: the compact JSON text of a
/// value, as it is stored.
#[verifier::external_body]
pub(crate) fn value_text(v: &serde_json::Value) -> (r: String) {
    v.to_string()
}

/// Relies on serde_json::Value::Array: the JSON array of the given items.
#[verifier::external_body]
pub(crate) fn array_value(items: Vec<serde_json::Value>) -> (r: serde_json::Value) {
    serde_json::Value::Array(items)
}

/// Relies on String::from_utf8: the bytes become a string exactly when they
/// are valid UTF-8, and the string holds the characters they encode.
#[verifier::external_body]
pub(crate) fn utf8_text(bytes: Vec<u8>) -> (r: Option<String>)
    ensures
        r is Some <==> vstd::utf8::valid_utf8(bytes@),
        r is Some ==> r->Some_0@ == vstd::utf8::decode_utf8(bytes@),
{
    String::from_utf8(bytes).ok()
}

} // verus!
