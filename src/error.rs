use vstd::prelude::*;

verus! {

#[verifier::external_type_specification]
#[verifier::external_body]
pub struct ExJsonError(serde_json::Error);

/// The failures that the library itself reports.
#[derive(Debug)]
pub enum SanityError {
    /// A request was to be built with no query text given or stored.
    MissingQuery,
    /// A response body is not valid JSON.
    Decode(serde_json::Error),
}

} // verus!
