//! Result marshaling: pure translation between a raw native outcome and
//! a validated payload or a structured error.

use vstd::prelude::*;

use crate::error::Error;
use crate::error::ErrorResponse;
use crate::error::PluginInvokeError;

verus! {

/// Raw outcome of a native call as it crosses the language boundary:
/// the failure side carries the native module's error message.
#[derive(Debug)]
pub enum FFIResult {
    /// Error message from the native side.
    Failure(String),
}

/// Whether a string is a well-formed JSON document, as the bridge's JSON
/// parser accepts one; a property of the string alone.
pub uninterp spec fn json_well_formed(s: Seq<char>) -> bool;

/// The message the bridge's JSON parser gives for a malformed document;
/// a function of the string alone.
pub uninterp spec fn json_parse_error(s: Seq<char>) -> Seq<char>;

/// Relies on `serde_json::from_str::<serde_json::Value>`: whether a
/// string parses as a JSON document, and the parser's message when it
/// does not, are both functions of the string alone.
#[verifier::external_body]
fn json_check(s: &str) -> (r: Result<(), String>)
    ensures
        r is Ok <==> json_well_formed(s@),
        r matches Err(m) ==> m@ == json_parse_error(s@),
{
    match serde_json::from_str::<serde_json::Value>(s) {
        Ok(_) => Ok(()),
        Err(e) => Err(e.to_string()),
    }
}

/// What decoding a raw native outcome yields: a well-formed JSON success
/// payload is carried through unchanged; a malformed payload becomes a
/// decode error carrying the parser's message for that payload; a
/// native failure becomes a rejected invoke carrying the native message
/// verbatim, with no code. Every case is a function of the outcome
/// alone.
pub open spec fn parsed_payload_spec(
    outcome: Result<String, FFIResult>,
    r: Result<String, Error>,
) -> bool {
    match outcome {
        Ok(payload) => {
            &&& json_well_formed(payload@) ==> r == Ok::<String, Error>(payload)
            &&& !json_well_formed(payload@) ==> (r matches Err(e)
                && (e matches Error::PluginInvoke(PluginInvokeError::CannotDeserializeResponse(m))
                && m@ == json_parse_error(payload@)))
        },
        Err(FFIResult::Failure(msg)) => r == Err::<String, Error>(
            Error::PluginInvoke(
                PluginInvokeError::InvokeRejected(
                    ErrorResponse { code: None, message: Some(msg), data: () },
                ),
            ),
        ),
    }
}

/// Decodes a raw native outcome, as a pure function of it. A success
/// payload is checked to be well-formed JSON and handed back exactly as
/// it arrived; a malformed payload becomes a decode error carrying the
/// parser's message, never a panic. A native failure is wrapped
/// verbatim as a rejected invoke with no code and the native message.
pub fn parse(outcome: Result<String, FFIResult>) -> (r: Result<String, Error>)
    ensures
        parsed_payload_spec(outcome, r),
{
    match outcome {
        Ok(payload) => match json_check(payload.as_str()) {
            Ok(()) => Ok(payload),
            Err(m) => Err(Error::PluginInvoke(PluginInvokeError::CannotDeserializeResponse(m))),
        },
        Err(FFIResult::Failure(msg)) => Err(
            Error::PluginInvoke(
                PluginInvokeError::InvokeRejected(
                    ErrorResponse { code: None, message: Some(msg), data: () },
                ),
            ),
        ),
    }
}

/// A native failure's message is surfaced verbatim: the error that
/// `parse` builds for a failure outcome displays as exactly the native
/// message.
pub proof fn lemma_failure_message_verbatim(msg: String)
    ensures
        Error::PluginInvoke(
            PluginInvokeError::InvokeRejected(
                ErrorResponse { code: None, message: Some(msg), data: () },
            ),
        ).spec_display() == msg@,
{
    assert(ErrorResponse { code: None, message: Some(msg), data: () }.spec_display() =~= msg@);
}

} // verus!
