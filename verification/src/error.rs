//! Structured errors surfaced to the host application.

use vstd::prelude::*;
use vstd::string::StringExecFns;

verus! {

/// Canonical shape for any error surfaced to the host: an optional machine
/// code, an optional human-readable message, and operation-specific detail
/// (empty for every operation of this bridge).
#[derive(Debug)]
pub struct ErrorResponse {
    /// Error code.
    pub code: Option<String>,
    /// Error message.
    pub message: Option<String>,
    /// Optional error data.
    pub data: (),
}

impl ErrorResponse {
    /// Display form: `[code]` alone, `message` alone, `[code] - message`
    /// when both are present, and the empty string when neither is.
    pub open spec fn spec_display(self) -> Seq<char> {
        let code_part = match self.code {
            Some(c) => "["@ + c@ + "]"@ + (if self.message is Some {
                " - "@
            } else {
                Seq::<char>::empty()
            }),
            None => Seq::<char>::empty(),
        };
        let message_part = match self.message {
            Some(m) => m@,
            None => Seq::<char>::empty(),
        };
        code_part + message_part
    }

    /// Renders the error for the host, exactly as `spec_display` states.
    pub fn display_string(&self) -> (r: String)
        ensures
            r@ == self.spec_display(),
    {
        let mut s = String::new();
        if let Some(code) = &self.code {
            s.append("[");
            s.append(code.as_str());
            s.append("]");
            if self.message.is_some() {
                s.append(" - ");
            }
        }
        if let Some(message) = &self.message {
            s.append(message.as_str());
        }
        s
    }
}

/// Errors arising at the boundary with the native plugin side.
#[derive(Debug)]
pub enum PluginInvokeError {
    /// The native side returned a failure outcome.
    InvokeRejected(ErrorResponse),
    /// A native success payload was not well-formed JSON; carries the
    /// parser's message.
    CannotDeserializeResponse(String),
    /// A request payload could not be serialized; carries the parser's
    /// message.
    CannotSerializePayload(String),
}

impl PluginInvokeError {
    /// Display form: a rejected invoke shows the native error response as
    /// it is; the two marshaling failures prefix the parser's message.
    pub open spec fn spec_display(self) -> Seq<char> {
        match self {
            PluginInvokeError::InvokeRejected(resp) => resp.spec_display(),
            PluginInvokeError::CannotDeserializeResponse(m) => "failed to deserialize response: "@
                + m@,
            PluginInvokeError::CannotSerializePayload(m) => "failed to serialize payload: "@ + m@,
        }
    }

    /// Renders the error for the host, exactly as `spec_display` states.
    pub fn display_string(&self) -> (r: String)
        ensures
            r@ == self.spec_display(),
    {
        match self {
            PluginInvokeError::InvokeRejected(resp) => resp.display_string(),
            PluginInvokeError::CannotDeserializeResponse(m) => {
                let mut s = String::from_str("failed to deserialize response: ");
                s.append(m.as_str());
                s
            },
            PluginInvokeError::CannotSerializePayload(m) => {
                let mut s = String::from_str("failed to serialize payload: ");
                s.append(m.as_str());
                s
            },
        }
    }
}

/// Top-level error type of the bridge.
#[derive(Debug)]
pub enum Error {
    /// An error from the native plugin boundary.
    PluginInvoke(PluginInvokeError),
    /// The bridge was invoked on a platform without a native purchase
    /// module; every operation returns this immediately there.
    PlatformUnsupported,
}

impl Error {
    /// Display form: boundary errors show as they are; the unsupported
    /// platform has a fixed message.
    pub open spec fn spec_display(self) -> Seq<char> {
        match self {
            Error::PluginInvoke(e) => e.spec_display(),
            Error::PlatformUnsupported => "IAP is not supported on this platform"@,
        }
    }

    /// Renders the error for the host, exactly as `spec_display` states.
    pub fn display_string(&self) -> (r: String)
        ensures
            r@ == self.spec_display(),
    {
        match self {
            Error::PluginInvoke(e) => e.display_string(),
            Error::PlatformUnsupported => String::from_str("IAP is not supported on this platform"),
        }
    }
}

impl From<ErrorResponse> for PluginInvokeError {
    /// Wraps a native error response as a rejected invoke.
    fn from(resp: ErrorResponse) -> (r: PluginInvokeError) {
        PluginInvokeError::InvokeRejected(resp)
    }
}

impl vstd::std_specs::convert::FromSpecImpl<ErrorResponse> for PluginInvokeError {
    open spec fn obeys_from_spec() -> bool {
        true
    }

    open spec fn from_spec(resp: ErrorResponse) -> PluginInvokeError {
        PluginInvokeError::InvokeRejected(resp)
    }
}

impl From<PluginInvokeError> for Error {
    /// Lifts a boundary error into the top-level error type.
    fn from(e: PluginInvokeError) -> (r: Error) {
        Error::PluginInvoke(e)
    }
}

impl vstd::std_specs::convert::FromSpecImpl<PluginInvokeError> for Error {
    open spec fn obeys_from_spec() -> bool {
        true
    }

    open spec fn from_spec(e: PluginInvokeError) -> Error {
        Error::PluginInvoke(e)
    }
}

} // verus!
