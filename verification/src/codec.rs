//! The pieces from which the codec of a protobuf schema is put together.
//!
//! A schema's own steps (reading and writing its wire format, matching text
//! against its shape) belong to the schema's type. What is the same for
//! every schema stands here: reading text as structured data, turning the
//! text layer's failures into this library's failures, and the schema
//! description.

use crate::error::{DecodeError, EncodeError};
use vstd::prelude::*;
use vstd::string::StringExecFns;

verus! {

/// `serde_json::Error`, carried through as it is: nothing is known of what
/// it holds but the message it displays.
#[verifier::external_type_specification]
#[verifier::external_body]
pub struct ExJsonError(serde_json::Error);

/// `serde_json::Value`, carried through as it is: structured data that the
/// schema's type matches against its shape.
#[verifier::external_type_specification]
#[verifier::external_body]
pub struct ExJsonValue(serde_json::Value);

/// What `serde_json::from_str` makes of a text when asked for a
/// `serde_json::Value`.
pub uninterp spec fn json_parsed(text: Seq<char>) -> Result<serde_json::Value, serde_json::Error>;

/// The message that a `serde_json::Error` displays.
pub uninterp spec fn json_fault_text(e: serde_json::Error) -> Seq<char>;

/// `serde_json::from_str::<serde_json::Value>`: reads one JSON value that
/// spans the whole text. The same text always reads the same.
#[verifier::external_body]
fn json_from_str(text: &str) -> (r: Result<serde_json::Value, serde_json::Error>)
    ensures
        r == json_parsed(text@),
{
    serde_json::from_str::<serde_json::Value>(text)
}

/// `Display` of `serde_json::Error`, through `to_string`: a fixed rendering
/// of the error's cause and, where it has one, its line and column.
#[verifier::external_body]
fn json_fault_message(e: &serde_json::Error) -> (text: String)
    ensures
        text@ == json_fault_text(*e),
{
    e.to_string()
}

impl DecodeError {
    /// A message that the text layer could not write out.
    pub fn from_text(e: &serde_json::Error) -> (r: DecodeError)
        ensures
            r@ == json_fault_text(*e),
    {
        DecodeError::new(json_fault_message(e))
    }
}

impl EncodeError {
    /// Text that is not valid, or does not match the schema's shape.
    pub fn from_text(e: &serde_json::Error) -> (r: EncodeError)
        ensures
            r@ == json_fault_text(*e),
    {
        EncodeError::new(json_fault_message(e))
    }
}

/// What reading `text` as structured data comes to: the value read, or the
/// text layer's complaint as an encode failure.
pub open spec fn text_outcome(
    parsed: Result<serde_json::Value, serde_json::Error>,
    r: Result<serde_json::Value, EncodeError>,
) -> bool {
    match parsed {
        Ok(value) => r == Ok::<serde_json::Value, EncodeError>(value),
        Err(e) => r matches Err(failure) && failure@ == json_fault_text(e),
    }
}

/// Passes on what the text layer made of a text.
pub fn relay_parsed(parsed: Result<serde_json::Value, serde_json::Error>) -> (r: Result<
    serde_json::Value,
    EncodeError,
>)
    ensures
        text_outcome(parsed, r),
{
    match parsed {
        Ok(value) => Ok(value),
        Err(e) => Err(EncodeError::from_text(&e)),
    }
}

/// Reads `text` as structured data, the first step of encoding: text that
/// is not syntactically valid ends here.
pub fn parse_text(text: &str) -> (r: Result<serde_json::Value, EncodeError>)
    ensures
        text_outcome(json_parsed(text@), r),
{
    relay_parsed(json_from_str(text))
}

/// The schema description of a protobuf codec.
pub open spec fn schema_placeholder() -> Seq<char> {
    "Schema not available yet"@
}

/// The schema description of a protobuf codec: a fixed text, since the
/// schemas carry no descriptors.
pub fn describe_schema() -> (text: String)
    ensures
        text@ == schema_placeholder(),
{
    String::from_str("Schema not available yet")
}

} // verus!
