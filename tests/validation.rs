use chatflow::credential::ApiKeyErrorKind;
use chatflow::validation::{validation_request, validation_result};

#[test]
fn status_200_confirms_key() {
    assert_eq!(validation_result(Ok(200)).unwrap(), true);
}

#[test]
fn status_401_is_invalid_credential() {
    let e = validation_result(Ok(401)).unwrap_err();
    assert_eq!(e.kind, ApiKeyErrorKind::InvalidCredential);
    assert_eq!(e.message, "Invalid API key");
}

#[test]
fn status_500_is_api_error() {
    let e = validation_result(Ok(500)).unwrap_err();
    assert_eq!(e.kind, ApiKeyErrorKind::Api(500));
    assert_eq!(e.message, "API validation failed with status: 500");
}

#[test]
fn other_success_codes_are_api_errors() {
    assert_eq!(validation_result(Ok(201)).unwrap_err().kind, ApiKeyErrorKind::Api(201));
    assert_eq!(validation_result(Ok(403)).unwrap_err().kind, ApiKeyErrorKind::Api(403));
}

#[test]
fn unreachable_host_is_network_error() {
    let e = validation_result(Err("dns error".to_string())).unwrap_err();
    assert_eq!(e.kind, ApiKeyErrorKind::Network);
    assert_eq!(e.message, "Failed to connect to API: dns error");
}

#[test]
fn request_carries_key_version_and_body() {
    let r = validation_request("sk-1", "https://example.test/v1/messages", "probe-model");
    assert_eq!(r.url, "https://example.test/v1/messages");
    let expected = vec![
        ("x-api-key".to_string(), "sk-1".to_string()),
        ("anthropic-version".to_string(), "2023-06-01".to_string()),
        ("content-type".to_string(), "application/json".to_string()),
    ];
    assert_eq!(r.headers, expected);
    assert_eq!(
        r.body,
        "{\"model\":\"probe-model\",\"messages\":[{\"role\":\"user\",\"content\":\"Hi\"}],\"max_tokens\":10}"
    );
    let body: serde_json::Value = serde_json::from_str(&r.body).unwrap();
    assert_eq!(body["model"], "probe-model");
    assert_eq!(body["max_tokens"], 10);
    assert_eq!(body["messages"][0]["role"], "user");
    assert_eq!(body["messages"][0]["content"], "Hi");
    assert_eq!(body["messages"].as_array().unwrap().len(), 1);
}

#[test]
fn model_identifier_is_escaped_in_body() {
    let r = validation_request("k", "https://example.test", "odd\"model\\x");
    let body: serde_json::Value = serde_json::from_str(&r.body).unwrap();
    assert_eq!(body["model"], "odd\"model\\x");
    assert!(r.body.contains("\"odd\\\"model\\\\x\""));
}
