use vstd::prelude::*;

use crate::error::SanityError;

verus! {

#[verifier::external_type_specification]
#[verifier::external_body]
pub struct ExJsonValue(serde_json::Value);

/// Whether `serde_json::from_str` accepts a text as a `Value`.
pub uninterp spec fn is_json(text: Seq<char>) -> bool;

/// The JSON value that a well-formed JSON text denotes.
pub uninterp spec fn json_of(text: Seq<char>) -> serde_json::Value;

/// Relies on serde_json::from_str::<Value>: parses the whole text as one JSON
/// document; the outcome depends on the text alone.
#[verifier::external_body]
fn parse_json(text: &str) -> (r: Result<serde_json::Value, serde_json::Error>)
    ensures
        r is Ok <==> is_json(text@),
        r is Ok ==> r->Ok_0 == json_of(text@),
{
    serde_json::from_str::<serde_json::Value>(text)
}

/// Decodes a response body as a generic JSON value, with no schema.
pub fn decode_body(body: &str) -> (r: Result<serde_json::Value, SanityError>)
    ensures
        is_json(body@) ==> r == Ok::<serde_json::Value, SanityError>(json_of(body@)),
        !is_json(body@) ==> r matches Err(SanityError::Decode(_)),
{
    match parse_json(body) {
        Ok(v) => Ok(v),
        Err(e) => Err(SanityError::Decode(e)),
    }
}

} // verus!
