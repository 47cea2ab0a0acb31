//! JSON values and the calls into `serde_json` that read and write them.
//!
//! A value is carried as `serde_json::Value`. Nothing in this crate looks inside one:
//! every question about a value is put to `serde_json`, and its answer is named by one
//! of the uninterpreted functions below, so that contracts elsewhere can speak of it.
//! Each item in this file is believed, not proved.

use crate::string_map::{distinct_keys, listing_map};
use vstd::prelude::*;

verus! {

/// `serde_json::Value`, a JSON document held in memory. Opaque to the verifier.
#[verifier::external_type_specification]
#[verifier::external_body]
pub struct ExJsonValue(serde_json::Value);

/// `serde_json::Error`, what parsing or encoding reports on failure. Opaque to the verifier.
#[verifier::external_type_specification]
#[verifier::external_body]
pub struct ExJsonError(serde_json::Error);

/// What `serde_json::from_str::<Value>` makes of a text: the document, or the error.
pub uninterp spec fn parsed_json(text: Seq<char>) -> Result<serde_json::Value, serde_json::Error>;

/// What `serde_json::from_str::<HashMap<String, Value>>` makes of a text: the members of the
/// object it denotes, or `None` where the text is no JSON object.
pub uninterp spec fn parsed_state(text: Seq<char>) -> Option<Map<Seq<char>, serde_json::Value>>;

/// What `serde_json::to_string` makes of a value: its compact text, or the error.
pub uninterp spec fn json_text(value: serde_json::Value) -> Result<Seq<char>, serde_json::Error>;

/// What `serde_json::to_string` makes of a `serde_json::Map` with the given members: the
/// compact text of the object, members in the order of their keys, or `None` on an error.
pub uninterp spec fn state_text(state: Map<Seq<char>, serde_json::Value>) -> Option<Seq<char>>;

/// What `Display` prints for a `serde_json::Error`.
pub uninterp spec fn error_text(error: serde_json::Error) -> Seq<char>;

/// Whether `serde_json` holds two values equal (`PartialEq` on `Value`).
///
/// This is not the verifier's `==`: `serde_json` compares numbers as numbers, so two
/// values that print differently (`0.0` and `-0.0`) can be equal here.
pub uninterp spec fn json_equal(left: serde_json::Value, right: serde_json::Value) -> bool;

/// What `Debug` prints for a `serde_json::Value`.
pub uninterp spec fn json_debug(value: serde_json::Value) -> Seq<char>;

/// `Value::clone`: the copy is the same document.
pub assume_specification[ <serde_json::Value as Clone>::clone ](value: &serde_json::Value) -> (copy:
    serde_json::Value)
    ensures
        copy == *value,
;

/// Calls `serde_json::from_str` for a `Value`. The result is the one `parsed_json` names
/// for this text: the parser reads nothing but the text.
#[verifier::external_body]
pub(crate) fn parse_json(text: &str) -> (parsed: Result<serde_json::Value, serde_json::Error>)
    ensures
        parsed == parsed_json(text@),
{
    serde_json::from_str::<serde_json::Value>(text)
}

/// Calls `serde_json::from_str` for a `HashMap<String, Value>` and hands its entries out as
/// a listing. The keys of a `HashMap` are distinct; the order of the listing is the order in
/// which the `HashMap` is walked, of which nothing is claimed. The map that the listing
/// denotes is the one `parsed_state` names for this text.
#[verifier::external_body]
pub(crate) fn parse_state(text: &str) -> (parsed: Option<Vec<(String, serde_json::Value)>>)
    ensures
        parsed is Some <==> parsed_state(text@) is Some,
        parsed matches Some(entries) ==> distinct_keys(entries@) && parsed_state(text@)
            == Some(listing_map(entries@)),
{
    match serde_json::from_str::<std::collections::HashMap<String, serde_json::Value>>(text) {
        Ok(members) => Some(members.into_iter().collect()),
        Err(_) => None,
    }
}

/// Calls `serde_json::to_string` on a `Value`. The result is the one `json_text` names.
#[verifier::external_body]
pub(crate) fn encode_json(value: &serde_json::Value) -> (encoded: Result<
    String,
    serde_json::Error,
>)
    ensures
        match encoded {
            Ok(text) => json_text(*value) == Ok::<Seq<char>, serde_json::Error>(text@),
            Err(error) => json_text(*value) == Err::<Seq<char>, serde_json::Error>(error),
        },
{
    serde_json::to_string(value)
}

/// Copies a listing with distinct keys into a `serde_json::Map` and calls
/// `serde_json::to_string` on it. The `Map` keeps its members in the order of their keys,
/// so the text depends on the members alone, not on the order of the listing; it is the
/// one `state_text` names. This holds of `serde_json` as this crate builds it, without the
/// feature `preserve_order`; with it, a `Map` keeps the order in which members came in.
#[verifier::external_body]
pub(crate) fn encode_state(entries: &Vec<(String, serde_json::Value)>) -> (encoded: Option<String>)
    requires
        distinct_keys(entries@),
    ensures
        encoded is Some <==> state_text(listing_map(entries@)) is Some,
        encoded matches Some(text) ==> state_text(listing_map(entries@)) == Some(text@),
{
    let members: serde_json::Map<String, serde_json::Value> = entries.iter().cloned().collect();
    serde_json::to_string(&members).ok()
}

/// Prints a `serde_json::Error` with `Display`. The result is the one `error_text` names.
#[verifier::external_body]
pub(crate) fn describe_error(error: &serde_json::Error) -> (text: String)
    ensures
        text@ == error_text(*error),
{
    error.to_string()
}

/// Compares two values with `serde_json`'s `==`. The result is the one `json_equal` names.
#[verifier::external_body]
pub(crate) fn values_equal(left: &serde_json::Value, right: &serde_json::Value) -> (equal: bool)
    ensures
        equal == json_equal(*left, *right),
{
    left == right
}

/// Prints a value with `Debug`. The result is the one `json_debug` names.
#[verifier::external_body]
pub(crate) fn debug_json(value: &serde_json::Value) -> (text: String)
    ensures
        text@ == json_debug(*value),
{
    format!("{:?}", value)
}

} // verus!
