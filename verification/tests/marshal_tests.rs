use iap_bridge::error::Error;
use iap_bridge::error::PluginInvokeError;
use iap_bridge::marshal::parse;
use iap_bridge::marshal::FFIResult;

#[test]
fn test_parse_valid_json_payload() {
    let payload = "{\"products\":[{\"id\":\"sku1\"}]}".to_string();
    let result = parse(Ok(payload.clone()));
    match result {
        Ok(decoded) => assert_eq!(decoded, payload),
        Err(_) => panic!("a well-formed JSON payload must decode"),
    }
}

#[test]
fn test_parse_malformed_json_payload() {
    let result = parse(Ok("not a number".to_string()));
    match result {
        Err(Error::PluginInvoke(PluginInvokeError::CannotDeserializeResponse(_))) => {}
        _ => panic!("a malformed payload must yield a decode error"),
    }
    let display = parse(Ok("{invalid}".to_string())).unwrap_err().display_string();
    assert!(display.contains("failed to deserialize response"));
}

#[test]
fn test_parse_json_scalar_payloads() {
    assert!(parse(Ok("null".to_string())).is_ok());
    assert!(parse(Ok("42".to_string())).is_ok());
    assert!(parse(Ok("[]".to_string())).is_ok());
    assert!(parse(Ok("".to_string())).is_err());
    assert!(parse(Ok("{\"a\":}".to_string())).is_err());
}

#[test]
fn test_parse_failure_surfaces_message_verbatim() {
    let result = parse(Err(FFIResult::Failure("x".to_string())));
    match result {
        Err(Error::PluginInvoke(PluginInvokeError::InvokeRejected(response))) => {
            assert_eq!(response.code, None);
            assert_eq!(response.message, Some("x".to_string()));
        }
        _ => panic!("a native failure must surface as a rejected invoke"),
    }
    let display = parse(Err(FFIResult::Failure("x".to_string())))
        .unwrap_err()
        .display_string();
    assert_eq!(display, "x");
}

#[test]
fn test_parse_is_deterministic() {
    let first = parse(Ok("{broken".to_string())).unwrap_err().display_string();
    let second = parse(Ok("{broken".to_string())).unwrap_err().display_string();
    assert_eq!(first, second);
    assert!(first.contains("failed to deserialize response"));
}
