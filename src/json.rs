//! Decoding a response body into an untyped JSON value, with a diagnostic report on failure.
use crate::diagnostics::DecodeError;
use vstd::prelude::*;

verus! {

#[verifier::external_type_specification]
#[verifier::external_body]
pub struct ExJsonValue(serde_json::Value);

/// Whether serde_json parses `text` into a `Value`.
pub uninterp spec fn json_accepts(text: Seq<char>) -> bool;

/// The one-based line at which serde_json stops on a text that it does not parse.
pub uninterp spec fn json_error_line(text: Seq<char>) -> nat;

/// The one-based column at which serde_json stops on a text that it does not parse.
pub uninterp spec fn json_error_column(text: Seq<char>) -> nat;

/// Relies on serde_json::from_str into a `Value`, and on the `line`, `column` and message of
/// the error it returns: the parser is deterministic, so both the outcome and the position at
/// which it stops depend on the text alone.
#[verifier::external_body]
fn parse_value(text: &str) -> (r: Result<serde_json::Value, (usize, usize, String)>)
    ensures
        r is Ok <==> json_accepts(text@),
        r matches Err((line, column, _)) ==> line == json_error_line(text@) && column
            == json_error_column(text@),
{
    serde_json::from_str::<serde_json::Value>(text).map_err(|e| (e.line(), e.column(), e.to_string()))
}

/// Decodes a response body into a JSON value; on failure, reports where the decoder stopped
/// together with the lines of the body around that place.
pub fn decode_json(text: &str) -> (r: Result<serde_json::Value, DecodeError>)
    ensures
        r is Ok <==> json_accepts(text@),
        r matches Err(e) ==> e.describes(text@, json_error_line(text@), json_error_column(text@)),
{
    match parse_value(text) {
        Ok(v) => Ok(v),
        Err((line, column, message)) => Err(DecodeError::new(message, text, line, column)),
    }
}

} // verus!
