use iap_bridge::error::Error;
use iap_bridge::error::ErrorResponse;
use iap_bridge::error::PluginInvokeError;

#[test]
fn test_error_response_display_code_only() {
    let response = ErrorResponse {
        code: Some("ERR001".to_string()),
        message: None,
        data: (),
    };
    assert_eq!(response.display_string(), "[ERR001]");
}

#[test]
fn test_error_response_display_message_only() {
    let response = ErrorResponse {
        code: None,
        message: Some("Something went wrong".to_string()),
        data: (),
    };
    assert_eq!(response.display_string(), "Something went wrong");
}

#[test]
fn test_error_response_display_both() {
    let response = ErrorResponse {
        code: Some("ERR001".to_string()),
        message: Some("Something went wrong".to_string()),
        data: (),
    };
    assert_eq!(response.display_string(), "[ERR001] - Something went wrong");
}

#[test]
fn test_error_response_display_neither() {
    let response: ErrorResponse = ErrorResponse {
        code: None,
        message: None,
        data: (),
    };
    assert_eq!(response.display_string(), "");
}

#[test]
fn test_plugin_invoke_error_invoke_rejected() {
    let response = ErrorResponse {
        code: Some("rejected".to_string()),
        message: Some("Request rejected".to_string()),
        data: (),
    };
    let error = PluginInvokeError::InvokeRejected(response);
    let display = error.display_string();
    assert!(display.contains("rejected"));
    assert!(display.contains("Request rejected"));
}

#[test]
fn test_plugin_invoke_error_deserialize_failed() {
    let error = PluginInvokeError::CannotDeserializeResponse("invalid type".to_string());
    let display = error.display_string();
    assert!(display.contains("failed to deserialize response"));
}

#[test]
fn test_plugin_invoke_error_serialize_failed() {
    let error = PluginInvokeError::CannotSerializePayload("key must be a string".to_string());
    let display = error.display_string();
    assert!(display.contains("failed to serialize payload"));
}

#[test]
fn test_error_from_plugin_invoke_error() {
    let response = ErrorResponse {
        code: Some("test".to_string()),
        message: Some("test".to_string()),
        data: (),
    };
    let plugin_error = PluginInvokeError::InvokeRejected(response);
    let error: Error = plugin_error.into();
    assert!(error.display_string().contains("test"));
}

#[test]
fn test_error_platform_unsupported_display() {
    let error = Error::PlatformUnsupported;
    assert_eq!(error.display_string(), "IAP is not supported on this platform");
}

#[test]
fn test_plugin_invoke_error_from_error_response() {
    let response = ErrorResponse {
        code: None,
        message: Some("native failure".to_string()),
        data: (),
    };
    let error: PluginInvokeError = response.into();
    assert_eq!(error.display_string(), "native failure");
}
