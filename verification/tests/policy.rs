use openai_azure_proxy::errors::AzureError;
use openai_azure_proxy::json::JsonValue;
use openai_azure_proxy::schemas::azure::ExtraParameters;
use openai_azure_proxy::schemas::chat_completions::ChatRequest;

fn extras() -> Vec<(String, JsonValue)> {
    vec![
        ("foo".to_string(), JsonValue::integer(1)),
        ("bar".to_string(), JsonValue::integer(2)),
    ]
}

#[test]
fn policy_names_are_kebab_case() {
    assert_eq!(ExtraParameters::parse(b"pass-through"), Some(ExtraParameters::PassThrough));
    assert_eq!(ExtraParameters::parse(b"drop"), Some(ExtraParameters::Drop));
    assert_eq!(ExtraParameters::parse(b"error"), Some(ExtraParameters::Error));
    assert_eq!(ExtraParameters::parse(b"Drop"), None);
    assert_eq!(ExtraParameters::parse(b"pass_through"), None);
    assert_eq!(ExtraParameters::parse(b"PassThrough"), None);
    assert_eq!(ExtraParameters::parse(b""), None);
    assert_eq!(ExtraParameters::parse(b"drop "), None);
    assert_eq!(ExtraParameters::parse(&[0xff]), None);
}

#[test]
fn policy_defaults_to_pass_through() {
    assert_eq!(ExtraParameters::from_header(None), ExtraParameters::PassThrough);
    assert_eq!(ExtraParameters::from_header(Some(b"nonsense")), ExtraParameters::PassThrough);
    assert_eq!(ExtraParameters::from_header(Some(b"error")), ExtraParameters::Error);
    assert_eq!(ExtraParameters::from_header(Some(b"drop")), ExtraParameters::Drop);
    assert_eq!(ExtraParameters::from_header(Some(b"pass-through")), ExtraParameters::PassThrough);
}

#[test]
fn pass_through_keeps_the_extras() {
    let kept = ExtraParameters::PassThrough.apply(extras()).unwrap();
    assert_eq!(JsonValue::Object(kept).to_vec(), JsonValue::Object(extras()).to_vec());
}

#[test]
fn drop_clears_the_extras() {
    assert!(ExtraParameters::Drop.apply(extras()).unwrap().is_empty());
    assert!(ExtraParameters::Drop.apply(Vec::new()).unwrap().is_empty());
}

#[test]
fn drop_twice_is_drop_once() {
    let payload = "{\"messages\":[],\"foo\":1,\"bar\":2}";
    let once = ChatRequest::from_str(payload, ExtraParameters::Drop).unwrap();
    assert!(once.extra_parameters.is_empty());
    let once_bytes = once.to_vec();
    let twice = once.apply_policy(ExtraParameters::Drop).unwrap();
    assert!(twice.extra_parameters.is_empty());
    assert_eq!(twice.to_vec(), once_bytes);
}

#[test]
fn error_refuses_extras_and_names_them() {
    match ExtraParameters::Error.apply(extras()) {
        Err(AzureError::InternalParsing(message)) => assert_eq!(
            message,
            "As the header `extra-parameters` is set to `error`, since the following parameters have been provided foo,bar, and those are not defined by the Azure AI Model Inference API."
        ),
        _ => panic!("expected a refusal"),
    }
}

#[test]
fn error_accepts_a_request_without_extras() {
    assert!(ExtraParameters::Error.apply(Vec::new()).unwrap().is_empty());
    let request = ChatRequest::from_str("{\"messages\":[]}", ExtraParameters::Error).unwrap();
    assert!(request.extra_parameters.is_empty());
}

#[test]
fn error_policy_on_a_payload_with_foo_and_bar() {
    let payload = "{\"messages\":[{\"role\":\"user\",\"content\":\"hi\"}],\"foo\":1,\"bar\":2}";
    let error = ChatRequest::from_str(payload, ExtraParameters::Error).unwrap_err();
    assert_eq!(error.status(), 500);
    assert_eq!(error.code(), "InternalProxyParsing");
    let message = error.message();
    assert!(message.contains("foo"));
    assert!(message.contains("bar"));
}
