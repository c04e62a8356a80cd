//! The payloads that the proxy reads and writes, each with its wire form.
use vstd::prelude::*;
use vstd::string::*;

pub mod azure;
pub mod chat_completions;
pub mod embeddings;
pub mod info;
pub mod round_trip;

verus! {

/// The message of a payload that is no JSON object.
pub open spec fn not_an_object_message() -> Seq<char> {
    "invalid type: expected a JSON object"@
}

/// The message of a payload that lacks a field it must have.
pub open spec fn missing_field_message(name: Seq<char>) -> Seq<char> {
    "missing field `"@ + name + "`"@
}

/// The message of a payload with a field whose value has not the form that the
/// field asks for.
pub open spec fn invalid_field_message(name: Seq<char>) -> Seq<char> {
    "invalid value for field `"@ + name + "`"@
}

/// The message of a payload that is no JSON object.
pub fn not_an_object() -> (r: String)
    ensures
        r@ == not_an_object_message(),
{
    String::from_str("invalid type: expected a JSON object")
}

/// The message of a payload that lacks the field `name`.
pub fn missing_field(name: &str) -> (r: String)
    ensures
        r@ == missing_field_message(name@),
{
    let mut message = String::from_str("missing field `");
    message.append(name);
    message.append("`");
    message
}

/// The message of a payload whose field `name` has not the form asked for.
pub fn invalid_field(name: &str) -> (r: String)
    ensures
        r@ == invalid_field_message(name@),
{
    let mut message = String::from_str("invalid value for field `");
    message.append(name);
    message.append("`");
    message
}

} // verus!
