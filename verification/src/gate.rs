//! Signature gate: the pre-flight decision that blocks privileged native
//! calls when the running binary's code signature cannot be validated.
//!
//! Querying the operating system for the two signing statuses is the
//! host's job; this module holds the verified decision over those
//! statuses, including the exact error surfaced for each way the check
//! can fail.

use vstd::prelude::*;
use vstd::string::StringExecFns;

use crate::decimal::i32_to_string;
use crate::decimal::spec_idec;
use crate::error::Error;
use crate::error::ErrorResponse;
use crate::error::PluginInvokeError;

verus! {

/// What the operating system reported about the running binary's code
/// signature: the status of obtaining a handle to the running code,
/// whether that handle was null despite a zero status, and the status of
/// validating the signature (checking all architectures and nested code,
/// but not the strictest mode, which rejects legitimate non-production
/// builds).
#[derive(Debug)]
pub struct SignatureProbe {
    /// Status of obtaining the handle to the running code; zero on
    /// success.
    pub copy_status: i32,
    /// Whether the handle was null even though `copy_status` was zero.
    pub code_ref_null: bool,
    /// Status of validating the signature; zero means valid.
    pub validity_status: i32,
}

/// The signature gate accepts exactly a probe whose every step succeeded.
pub open spec fn gate_ok(probe: SignatureProbe) -> bool {
    probe.copy_status == 0 && !probe.code_ref_null && probe.validity_status == 0
}

/// The exact error the signature gate reports for a failed probe: a rejected
/// invoke whose code and message name the step that failed and its
/// status.
pub open spec fn is_gate_error(probe: SignatureProbe, e: Error) -> bool {
    e matches Error::PluginInvoke(PluginInvokeError::InvokeRejected(resp)) && (if probe.copy_status
        != 0 {
        &&& resp.code matches Some(c) && c@ == spec_idec(probe.copy_status as int)
        &&& resp.message matches Some(m) && m@ == "Failed to get code reference: OSStatus "@
            + spec_idec(probe.copy_status as int)
    } else if probe.code_ref_null {
        &&& resp.code matches Some(c) && c@ == "nullCodeRef"@
        &&& resp.message matches Some(m) && m@ == "Failed to get code reference: null pointer"@
    } else {
        &&& resp.code matches Some(c) && c@ == spec_idec(probe.validity_status as int)
        &&& resp.message matches Some(m) && m@ == "Code signature validation failed: OSStatus "@
            + spec_idec(probe.validity_status as int)
    })
}

/// Accepts exactly a fully successful probe; any failure yields the
/// error `is_gate_error` describes, carrying the failing step's status.
pub fn is_signature_valid(probe: &SignatureProbe) -> (r: Result<(), Error>)
    ensures
        r is Ok <==> gate_ok(*probe),
        r matches Err(e) ==> is_gate_error(*probe, e),
{
    if probe.copy_status != 0 {
        let mut msg = String::from_str("Failed to get code reference: OSStatus ");
        msg.append(i32_to_string(probe.copy_status).as_str());
        Err(
            Error::PluginInvoke(
                PluginInvokeError::InvokeRejected(
                    ErrorResponse {
                        code: Some(i32_to_string(probe.copy_status)),
                        message: Some(msg),
                        data: (),
                    },
                ),
            ),
        )
    } else if probe.code_ref_null {
        Err(
            Error::PluginInvoke(
                PluginInvokeError::InvokeRejected(
                    ErrorResponse {
                        code: Some(String::from_str("nullCodeRef")),
                        message: Some(String::from_str("Failed to get code reference: null pointer")),
                        data: (),
                    },
                ),
            ),
        )
    } else if probe.validity_status != 0 {
        let mut msg = String::from_str("Code signature validation failed: OSStatus ");
        msg.append(i32_to_string(probe.validity_status).as_str());
        Err(
            Error::PluginInvoke(
                PluginInvokeError::InvokeRejected(
                    ErrorResponse {
                        code: Some(i32_to_string(probe.validity_status)),
                        message: Some(msg),
                        data: (),
                    },
                ),
            ),
        )
    } else {
        Ok(())
    }
}

} // verus!
