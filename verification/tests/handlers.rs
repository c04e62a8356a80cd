use openai_azure_proxy::errors::AzureError;
use openai_azure_proxy::handlers::chat_completions::{
    chat_completions_handler, chat_completions_response, extra_parameters_policy,
};
use openai_azure_proxy::proxy::{
    copy_headers, find_header, forward_headers, is_stripped_name, Header, ProxyState,
};
use openai_azure_proxy::schemas::azure::{ExtraParameters, QueryParameters};
use openai_azure_proxy::text::{bytes_eq, eq_ignore_ascii_case, join, to_ascii_lower};
use openai_azure_proxy::utils::UriParts;
use openai_azure_proxy::UpstreamType;

fn state() -> ProxyState {
    ProxyState {
        uri: UriParts {
            scheme: Some("http".to_string()),
            authority: Some("upstream:8080".to_string()),
            path_and_query: Some("/".to_string()),
        },
        upstream_type: UpstreamType::ChatCompletions,
    }
}

fn header(name: &str, value: &[u8]) -> Header {
    Header { name: name.to_string(), value: value.to_vec() }
}

fn query(version: &str) -> QueryParameters {
    QueryParameters { api_version: Some(version.to_string()) }
}

fn as_value(bytes: &[u8]) -> serde_json::Value {
    serde_json::from_slice(bytes).unwrap()
}

#[test]
fn end_to_end_with_drop() {
    let headers = vec![
        header("content-type", b"application/json"),
        header("extra-parameters", b"drop"),
        header("content-length", b"78"),
    ];
    let body = b"{\"messages\":[{\"role\":\"user\",\"content\":\"hi\"}],\"temperature\":0.5,\"foo\":\"bar\"}";
    let request =
        chat_completions_handler(&state(), "POST".to_string(), &headers, query("2025-04-01"), body)
            .unwrap();
    assert_eq!(request.method, "POST");
    assert_eq!(request.uri.to_string(), "http://upstream:8080/v1/chat/completions");
    assert_eq!(
        as_value(&request.body),
        as_value(b"{\"messages\":[{\"role\":\"user\",\"content\":\"hi\"}],\"temperature\":0.5}")
    );
    assert_eq!(request.headers.len(), 1);
    assert_eq!(request.headers[0].name, "content-type");
    assert_eq!(request.headers[0].value, b"application/json".to_vec());

    let upstream = (200u16, b"{\"choices\":[]} raw".to_vec());
    assert_eq!(chat_completions_response(Ok(upstream.clone())).ok(), Some(upstream));
    let failing = (429u16, b"slow down".to_vec());
    assert_eq!(chat_completions_response(Ok(failing.clone())).ok(), Some(failing));
}

#[test]
fn pass_through_forwards_the_extras() {
    let body = b"{\"messages\":[{\"role\":\"user\",\"content\":\"hi\"}],\"temperature\":0.5,\"foo\":\"bar\"}";
    for headers in [vec![], vec![header("Extra-Parameters", b"pass-through")],
        vec![header("extra-parameters", b"whatever")]]
    {
        let request = chat_completions_handler(
            &state(),
            "POST".to_string(),
            &headers,
            query("2024-05-01-preview"),
            body,
        )
        .unwrap();
        assert_eq!(as_value(&request.body), as_value(body));
    }
}

#[test]
fn error_policy_refuses_the_extras() {
    let headers = vec![header("extra-parameters", b"error")];
    let body = b"{\"messages\":[],\"foo\":1,\"bar\":2}";
    let error =
        chat_completions_handler(&state(), "POST".to_string(), &headers, query("2025-04-01"), body)
            .unwrap_err();
    assert_eq!(error.status(), 500);
    assert_eq!(error.code(), "InternalProxyParsing");
    assert!(error.message().contains("foo"));
    assert!(error.message().contains("bar"));
    let clean = chat_completions_handler(
        &state(),
        "POST".to_string(),
        &headers,
        query("2025-04-01"),
        b"{\"messages\":[]}",
    );
    assert!(clean.is_ok());
}

#[test]
fn api_version_is_tested_before_the_body() {
    let error = chat_completions_handler(
        &state(),
        "POST".to_string(),
        &Vec::new(),
        QueryParameters { api_version: None },
        b"this is no json",
    )
    .unwrap_err();
    assert!(matches!(error, AzureError::MissingApiVersionParameter));
    let error = chat_completions_handler(
        &state(),
        "PUT".to_string(),
        &Vec::new(),
        query("2020-01-01"),
        b"this is no json",
    )
    .unwrap_err();
    assert!(matches!(error, AzureError::UnsupportedApiVersionValue(_, _)));
    let error = chat_completions_handler(
        &state(),
        "POST".to_string(),
        &Vec::new(),
        query("2025-04-01"),
        b"this is no json",
    )
    .unwrap_err();
    assert!(matches!(error, AzureError::InternalParsing(_)));
}

#[test]
fn handler_reports_a_base_without_authority() {
    let state = ProxyState {
        uri: UriParts { scheme: None, authority: None, path_and_query: Some("/x".to_string()) },
        upstream_type: UpstreamType::ChatCompletions,
    };
    let error = chat_completions_handler(
        &state,
        "POST".to_string(),
        &Vec::new(),
        query("2025-04-01"),
        b"{\"messages\":[]}",
    )
    .unwrap_err();
    assert_eq!(error.status(), 500);
    assert_eq!(error.message(), "invalid uri: authority missing");
}

#[test]
fn transport_failure_is_bad_gateway() {
    let outcome: Result<Vec<u8>, String> = Err("connection refused".to_string());
    let error = chat_completions_response(outcome).unwrap_err();
    assert!(matches!(&error, AzureError::Upstream(502, message) if message == "connection refused"));
    assert_eq!(error.status(), 502);
    assert_eq!(error.code(), "UpstreamApi");
    assert_eq!(
        error.into_response().body,
        b"{\"error\":{\"code\":\"UpstreamApi\",\"message\":\"connection refused\"}}".to_vec()
    );
}

#[test]
fn policy_is_read_from_the_first_header_of_the_name() {
    assert_eq!(extra_parameters_policy(&Vec::new()), ExtraParameters::PassThrough);
    assert_eq!(
        extra_parameters_policy(&vec![header("accept", b"drop"), header("EXTRA-parameters", b"error")]),
        ExtraParameters::Error
    );
    assert_eq!(
        extra_parameters_policy(&vec![
            header("extra-parameters", b"drop"),
            header("extra-parameters", b"error")
        ]),
        ExtraParameters::Drop
    );
    assert_eq!(
        extra_parameters_policy(&vec![
            header("extra-parameters", b"DROP"),
            header("extra-parameters", b"error")
        ]),
        ExtraParameters::PassThrough
    );
    assert_eq!(
        extra_parameters_policy(&vec![header("extra-parameters", &[0xff, 0xfe])]),
        ExtraParameters::PassThrough
    );
}

#[test]
fn stripped_headers_are_held_back() {
    for name in ["extra-parameters", "connection", "content-length", "transfer-encoding",
        "Connection", "CONTENT-LENGTH", "Transfer-Encoding", "Extra-Parameters"]
    {
        assert!(is_stripped_name(name), "{}", name);
    }
    for name in ["", "host", "content-type", "authorization", "connection ", "content_length"] {
        assert!(!is_stripped_name(name), "{}", name);
    }
    let headers = vec![
        header("host", b"a"),
        header("Connection", b"keep-alive"),
        header("x-one", &[0xff]),
        header("transfer-encoding", b"chunked"),
        header("x-one", b"2"),
        header("content-length", b"1"),
        header("extra-parameters", b"drop"),
    ];
    let kept = forward_headers(&headers);
    let names: Vec<&str> = kept.iter().map(|h| h.name.as_str()).collect();
    assert_eq!(names, vec!["host", "x-one", "x-one"]);
    assert_eq!(kept[1].value, vec![0xff]);
    assert_eq!(kept[2].value, b"2".to_vec());
    assert_eq!(copy_headers(&headers).len(), 7);
    assert_eq!(find_header(&headers, "X-ONE"), Some(2));
    assert_eq!(find_header(&headers, "x-two"), None);
}

#[test]
fn text_helpers() {
    assert!(eq_ignore_ascii_case("Content-Length", "content-length"));
    assert!(eq_ignore_ascii_case("", ""));
    assert!(!eq_ignore_ascii_case("a", "ab"));
    assert!(!eq_ignore_ascii_case("\u{e9}", "\u{c9}"));
    assert!(!eq_ignore_ascii_case("[", "{"));
    assert!(!eq_ignore_ascii_case("@", "`"));
    assert_eq!(to_ascii_lower('A'), 'a');
    assert_eq!(to_ascii_lower('Z'), 'z');
    assert_eq!(to_ascii_lower('a'), 'a');
    assert_eq!(to_ascii_lower('['), '[');
    assert_eq!(to_ascii_lower('@'), '@');
    assert_eq!(to_ascii_lower('\u{c9}'), '\u{c9}');
    assert!(bytes_eq(b"abc", b"abc"));
    assert!(!bytes_eq(b"abc", b"abd"));
    assert!(!bytes_eq(b"abc", b"ab"));
    assert!(bytes_eq(b"", b""));
    assert_eq!(join(&vec![], ","), "");
    assert_eq!(join(&vec!["a".to_string()], ","), "a");
    assert_eq!(join(&vec!["a".to_string(), "b".to_string(), "".to_string()], ", "), "a, b, ");
}
