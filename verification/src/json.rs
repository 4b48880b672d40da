//! The boundary with `serde_json`: parsing a payload into a document and
//! reading members and strings out of it.
//!
//! Nothing in this file is proved. Each function hands one call to
//! `serde_json` and states what that call is documented to return.

use vstd::prelude::*;

verus! {

/// What a JSON document holds. Numbers are kept as a tag only: nothing in this
/// library reads their value.
pub enum Json {
    Null,
    Bool(bool),
    Number,
    Text(Seq<char>),
    Array(Seq<Json>),
    Object(Map<Seq<char>, Json>),
}

#[verifier::external_type_specification]
#[verifier::external_body]
pub struct ExValue(serde_json::Value);

#[verifier::external_type_specification]
#[verifier::external_body]
pub struct ExError(serde_json::Error);

/// The document that a `serde_json::Value` holds.
pub uninterp spec fn json_of(value: serde_json::Value) -> Json;

/// The message that a `serde_json::Error` displays.
pub uninterp spec fn json_error_text(error: serde_json::Error) -> Seq<char>;

/// What `serde_json::from_str` makes of a text: the document it parses to, or
/// the message of the error it is rejected with.
pub uninterp spec fn json_parse(text: Seq<char>) -> Result<Json, Seq<char>>;

/// Calls `serde_json::from_str` for a `Value`. The outcome is the one that
/// `json_parse` names for this text.
#[verifier::external_body]
pub(crate) fn parse_document(text: &str) -> (r: Result<serde_json::Value, serde_json::Error>)
    ensures
        match r {
            Ok(value) => json_parse(text@) == Ok::<Json, Seq<char>>(json_of(value)),
            Err(error) => json_parse(text@) == Err::<Json, Seq<char>>(json_error_text(error)),
        },
{
    serde_json::from_str::<serde_json::Value>(text)
}

/// Calls `Value::get` with a string key: the member under that key where the
/// value is an object that has it, `None` for any other value or key.
#[verifier::external_body]
pub(crate) fn member<'a>(value: &'a serde_json::Value, key: &str) -> (r: Option<&'a serde_json::Value>)
    ensures
        match r {
            Some(found) => json_of(*value) matches Json::Object(members)
                && members.contains_key(key@) && json_of(*found) == members[key@],
            None => !(json_of(*value) matches Json::Object(members) && members.contains_key(key@)),
        },
{
    value.get(key)
}

/// Calls `Value::as_str`: the string where the value is a JSON string, `None`
/// for any other value.
#[verifier::external_body]
pub(crate) fn text_of<'a>(value: &'a serde_json::Value) -> (r: Option<&'a str>)
    ensures
        match r {
            Some(text) => json_of(*value) == Json::Text(text@),
            None => !(json_of(*value) is Text),
        },
{
    value.as_str()
}

/// Formats a `serde_json::Error` through its `Display` impl.
#[verifier::external_body]
pub(crate) fn error_text(error: &serde_json::Error) -> (r: String)
    ensures
        r@ == json_error_text(*error),
{
    error.to_string()
}

} // verus!
