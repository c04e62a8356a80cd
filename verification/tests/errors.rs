use openai_azure_proxy::errors::AzureError;

fn envelope(code: &str, message: &str) -> serde_json::Value {
    let mut inner = serde_json::Map::new();
    inner.insert("code".to_string(), serde_json::Value::String(code.to_string()));
    inner.insert("message".to_string(), serde_json::Value::String(message.to_string()));
    let mut outer = serde_json::Map::new();
    outer.insert("error".to_string(), serde_json::Value::Object(inner));
    serde_json::Value::Object(outer)
}

fn body_of(error: AzureError) -> (u16, serde_json::Value) {
    let response = error.into_response();
    (response.status, serde_json::from_slice(&response.body).unwrap())
}

#[test]
fn missing_api_version_envelope() {
    let (status, body) = body_of(AzureError::MissingApiVersionParameter);
    assert_eq!(status, 400);
    assert_eq!(
        body,
        envelope(
            "MissingApiVersionParameter",
            "The api-version query parameter (?api-version=) is required for all requests."
        )
    );
}

#[test]
fn unsupported_api_version_envelope() {
    let (status, body) =
        body_of(AzureError::UnsupportedApiVersionValue("v0".to_string(), "a, b".to_string()));
    assert_eq!(status, 400);
    assert_eq!(
        body,
        envelope(
            "UnsupportedApiVersionValue",
            "Unsupported api-version 'v0'. The supported api-versions are 'a, b'."
        )
    );
}

#[test]
fn internal_parsing_envelope() {
    let error = AzureError::InternalParsing("expected value at line 1 column 1".to_string());
    assert_eq!(error.status(), 500);
    assert_eq!(error.code(), "InternalProxyParsing");
    assert_eq!(error.message(), "expected value at line 1 column 1");
    let (status, body) = body_of(error);
    assert_eq!(status, 500);
    assert_eq!(body, envelope("InternalProxyParsing", "expected value at line 1 column 1"));
}

#[test]
fn upstream_envelope_keeps_the_status() {
    let error = AzureError::Upstream(503, "connection refused".to_string());
    assert_eq!(error.status(), 503);
    assert_eq!(error.code(), "UpstreamApi");
    assert_eq!(error.message(), "connection refused");
    let (status, body) = body_of(error);
    assert_eq!(status, 503);
    assert_eq!(body, envelope("UpstreamApi", "connection refused"));
}

#[test]
fn envelope_is_one_object_with_one_field() {
    let error = AzureError::InternalParsing("m".to_string());
    assert_eq!(
        error.envelope().to_vec(),
        b"{\"error\":{\"code\":\"InternalProxyParsing\",\"message\":\"m\"}}".to_vec()
    );
}
