//! Connector metadata: the JSON value in which the canonical model keeps what a
//! gateway handed out for later calls. Here it carries the authorization code.

use vstd::prelude::*;

verus! {

/// Declares `serde_json::Value` as a type whose inside contracts do not see. Values
/// of it are carried through; what they hold as text has the name `json_text`.
#[verifier::external_type_specification]
#[verifier::external_body]
pub struct ExJsonValue(serde_json::Value);

/// The text that a JSON value holds where it is a JSON string, and `None` for every
/// other kind of value.
pub uninterp spec fn json_text(value: serde_json::Value) -> Option<Seq<char>>;

/// Wraps a text as a JSON string.
///
/// Calls `serde_json::Value::from` on a `String`, which builds the `String` variant
/// around its argument: the value holds exactly the text given.
#[verifier::external_body]
pub(crate) fn json_from_text(text: String) -> (value: serde_json::Value)
    ensures
        json_text(value) == Some(text@),
{
    serde_json::Value::from(text)
}

/// Reads the text out of a JSON string.
///
/// Calls `serde_json::Value::as_str`, which hands out the content of the `String`
/// variant and `None` for any other variant; the content is copied into an owned
/// string.
#[verifier::external_body]
pub(crate) fn json_as_text(value: &serde_json::Value) -> (text: Option<String>)
    ensures
        match text {
            Some(t) => json_text(*value) == Some(t@),
            None => json_text(*value) is None,
        },
{
    value.as_str().map(str::to_owned)
}

/// The authorization code that a piece of connector metadata carries, if any.
pub open spec fn authorization_in(metadata: Option<serde_json::Value>) -> Option<Seq<char>> {
    match metadata {
        Some(value) => json_text(value),
        None => None,
    }
}

} // verus!
