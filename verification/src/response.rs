//! Parsing the response body.
//!
//! The server's reply is an arbitrary JSON document; the client validates
//! nothing beyond parseability. Whether a text parses is a property of the
//! text alone, named by `json_parses`.

use vstd::prelude::*;

use crate::errors::ApiError;

verus! {

#[verifier::external_type_specification]
#[verifier::external_body]
pub struct ExValue(serde_json::Value);

#[verifier::external_type_specification]
#[verifier::external_body]
pub struct ExJsonError(serde_json::Error);

/// Whether serde_json accepts a text as a JSON document (it rejects, besides
/// malformed texts, well-formed ones nested past its fixed recursion limit).
/// What it accepts depends on the text alone.
pub uninterp spec fn json_parses(s: Seq<char>) -> bool;

/// Relies on serde_json::from_str::<serde_json::Value>: it returns `Ok`
/// exactly on the texts serde_json accepts, a property of the text alone.
#[verifier::external_body]
fn parse_json_text(body: &str) -> (r: Result<serde_json::Value, serde_json::Error>)
    ensures
        r is Ok <==> json_parses(body@),
{
    serde_json::from_str(body)
}

/// Parses the response body; fails with `ParseError` exactly when serde_json
/// does not accept the body as a JSON document, and never with any other
/// error.
pub fn parse_response_body(body: &str) -> (r: Result<serde_json::Value, ApiError>)
    ensures
        r is Ok <==> json_parses(body@),
        r matches Err(e) ==> e == ApiError::ParseError,
{
    match parse_json_text(body) {
        Ok(v) => Ok(v),
        Err(_) => Err(ApiError::ParseError),
    }
}

} // verus!
