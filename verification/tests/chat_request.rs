use openai_azure_proxy::errors::AzureError;
use openai_azure_proxy::json::{JsonNumber, JsonValue};
use openai_azure_proxy::schemas::azure::ExtraParameters;
use openai_azure_proxy::schemas::chat_completions::{
    is_recognized_name, ChatCompletionsModality, ChatCompletionsResponseFormat,
    ChatCompletionsToolCall, ChatRequest, ChatRequestAudioReference, ChatRequestMessage,
    FunctionCall, FunctionDefinition, FunctionSpec, FunctionTool, ToolChoice,
};

fn parse(text: &str) -> JsonValue {
    JsonValue::from_slice(text.as_bytes()).unwrap()
}

fn read(text: &str) -> ChatRequest {
    ChatRequest::from_str(text, ExtraParameters::PassThrough).unwrap()
}

fn message_of(text: &str) -> String {
    match ChatRequest::from_str(text, ExtraParameters::PassThrough) {
        Err(AzureError::InternalParsing(message)) => message,
        _ => panic!("expected a failure to read the payload"),
    }
}

fn as_value(bytes: &[u8]) -> serde_json::Value {
    serde_json::from_slice(bytes).unwrap()
}

#[test]
fn test_full_structure() {
    let payload = "{\"messages\":[{\"role\":\"system\",\"content\":\"You are a pirate\"},{\"role\":\"user\",\"content\":\"Where's Paris?\"},{\"role\":\"tool\",\"content\":\"In France\",\"tool_call_id\":\"456\"}]}";

    let input = ChatRequest::from_str(payload, ExtraParameters::PassThrough).unwrap();
    assert_eq!(input.messages.len(), 3);

    let serialized: serde_json::Value = serde_json::from_slice(&input.to_vec()).unwrap();
    let expected: serde_json::Value = serde_json::from_str(payload).unwrap();
    assert_eq!(serialized, expected);
}

#[test]
fn every_field_is_read() {
    let request = read(
        "{\"model\":\"m\",\"messages\":[{\"role\":\"user\",\"content\":\"hi\"}],\"frequency_penalty\":-2,\"max_tokens\":16,\"modalities\":[\"text\",\"audio\"],\"presence_penalty\":0.25,\"top_p\":1,\"seed\":-7,\"stop\":[\"a\",\"b\"],\"stream\":false,\"temperature\":0.5,\"response_format\":{\"type\":\"json_object\"},\"tool_choice\":\"auto\",\"foo\":{\"x\":[1]}}",
    );
    assert_eq!(request.model.as_deref(), Some("m"));
    assert_eq!(request.messages.len(), 1);
    assert!(matches!(&request.messages[0], ChatRequestMessage::User { content } if content == "hi"));
    assert!(matches!(request.frequency_penalty, Some(JsonNumber::NegInt(-2))));
    assert_eq!(request.max_tokens, Some(16));
    assert!(matches!(&request.presence_penalty, Some(JsonNumber::Float(t)) if t == "0.25"));
    assert!(matches!(request.top_p, Some(JsonNumber::PosInt(1))));
    assert_eq!(request.seed, Some(-7));
    assert_eq!(request.stop, Some(vec!["a".to_string(), "b".to_string()]));
    assert_eq!(request.stream, Some(false));
    assert!(matches!(&request.temperature, Some(JsonNumber::Float(t)) if t == "0.5"));
    assert!(matches!(request.response_format, Some(ChatCompletionsResponseFormat::JsonObject)));
    assert!(matches!(request.tool_choice, Some(ToolChoice::Auto)));
    assert_eq!(request.extra_parameters.len(), 2);
    assert_eq!(request.extra_parameters[0].0, "foo");
    assert_eq!(request.extra_parameters[0].1.to_vec(), b"{\"x\":[1]}".to_vec());
    assert_eq!(request.extra_parameters[1].0, "modalities");
    assert_eq!(request.extra_parameters[1].1.to_vec(), b"[\"text\",\"audio\"]".to_vec());
}

#[test]
fn absent_and_null_fields_are_none() {
    let request = read(
        "{\"messages\":[],\"model\":null,\"max_tokens\":null,\"seed\":null,\"stop\":null,\"stream\":null,\"temperature\":null,\"response_format\":null,\"tool_choice\":null}",
    );
    assert!(request.model.is_none());
    assert!(request.messages.is_empty());
    assert!(request.frequency_penalty.is_none());
    assert!(request.max_tokens.is_none());
    assert!(request.seed.is_none());
    assert!(request.stop.is_none());
    assert!(request.stream.is_none());
    assert!(request.temperature.is_none());
    assert!(request.response_format.is_none());
    assert!(request.tool_choice.is_none());
    assert!(request.extra_parameters.is_empty());
    assert_eq!(request.to_vec(), b"{\"messages\":[]}".to_vec());
}

#[test]
fn modalities_default_to_text() {
    assert_eq!(ChatCompletionsModality::default(), Some(vec![ChatCompletionsModality::Text]));
    assert_eq!(
        ChatCompletionsModality::from_json(&JsonValue::text("text")),
        Some(ChatCompletionsModality::Text)
    );
    assert_eq!(
        ChatCompletionsModality::from_json(&JsonValue::text("audio")),
        Some(ChatCompletionsModality::Audio)
    );
    assert_eq!(ChatCompletionsModality::from_json(&JsonValue::text("video")), None);
    assert_eq!(ChatCompletionsModality::from_json(&JsonValue::Null), None);
}

#[test]
fn modalities_are_an_extra_field_and_written_again() {
    let payload = "{\"messages\":[],\"modalities\":[\"audio\"]}";
    let request = read(payload);
    assert_eq!(request.extra_parameters.len(), 1);
    assert_eq!(request.extra_parameters[0].0, "modalities");
    assert_eq!(request.to_vec(), payload.as_bytes().to_vec());
    assert_eq!(read("{\"messages\":[]}").to_vec(), b"{\"messages\":[]}".to_vec());
    let dropped = ChatRequest::from_str(payload, ExtraParameters::Drop).unwrap();
    assert_eq!(dropped.to_vec(), b"{\"messages\":[]}".to_vec());
    match ChatRequest::from_str(payload, ExtraParameters::Error) {
        Err(AzureError::InternalParsing(message)) => assert!(message.contains("modalities")),
        _ => panic!("expected a refusal"),
    }
}

#[test]
fn written_and_read_again_is_the_same_request() {
    let payload = "{\"model\":\"m\",\"messages\":[{\"role\":\"assistant\",\"content\":\"a\",\"tool_calls\":[]},{\"role\":\"user\",\"content\":\"b\"}],\"max_tokens\":7,\"seed\":-1,\"stop\":[\"x\"],\"stream\":true,\"temperature\":0.25,\"tool_choice\":\"required\",\"modalities\":[\"audio\"],\"zeta\":null,\"alpha\":[1]}";
    let first = read(payload);
    let text = String::from_utf8(first.to_vec()).unwrap();
    let second = read(&text);
    assert_eq!(second.model, first.model);
    assert_eq!(second.messages.len(), first.messages.len());
    for (a, b) in first.messages.iter().zip(second.messages.iter()) {
        assert_eq!(a.to_json().to_vec(), b.to_json().to_vec());
    }
    assert_eq!(second.max_tokens, first.max_tokens);
    assert_eq!(second.seed, first.seed);
    assert_eq!(second.stop, first.stop);
    assert_eq!(second.stream, first.stream);
    assert!(matches!(&second.temperature, Some(JsonNumber::Float(t)) if t == "0.25"));
    assert!(second.frequency_penalty.is_none() && second.presence_penalty.is_none());
    assert!(second.top_p.is_none() && second.response_format.is_none());
    assert!(matches!(second.tool_choice, Some(ToolChoice::Required)));
    assert_eq!(second.extra_parameters.len(), first.extra_parameters.len());
    for (a, b) in first.extra_parameters.iter().zip(second.extra_parameters.iter()) {
        assert_eq!(a.0, b.0);
        assert_eq!(a.1.to_vec(), b.1.to_vec());
    }
    let names: Vec<&str> = second.extra_parameters.iter().map(|e| e.0.as_str()).collect();
    assert_eq!(names, vec!["alpha", "modalities", "zeta"]);
    assert_eq!(second.to_vec(), text.as_bytes().to_vec());
    assert_eq!(as_value(text.as_bytes()), as_value(payload.as_bytes()));
}

#[test]
fn dropped_written_and_read_again_is_the_same_request() {
    let payload = "{\"messages\":[{\"role\":\"user\",\"content\":\"hi\"}],\"modalities\":[\"audio\"],\"top_p\":1,\"foo\":1}";
    let first = ChatRequest::from_str(payload, ExtraParameters::Drop).unwrap();
    assert!(first.extra_parameters.is_empty());
    let text = String::from_utf8(first.to_vec()).unwrap();
    assert_eq!(text, "{\"messages\":[{\"content\":\"hi\",\"role\":\"user\"}],\"top_p\":1}");
    let second = ChatRequest::from_str(&text, ExtraParameters::Drop).unwrap();
    assert!(second.extra_parameters.is_empty());
    assert_eq!(second.messages.len(), 1);
    assert!(matches!(second.top_p, Some(JsonNumber::PosInt(1))));
    assert!(second.model.is_none() && second.max_tokens.is_none() && second.seed.is_none());
    assert_eq!(second.to_vec(), text.as_bytes().to_vec());
}

#[test]
fn extra_parameters_have_each_name_once() {
    let tree = JsonValue::Object(vec![
        ("foo".to_string(), JsonValue::integer(1)),
        ("messages".to_string(), JsonValue::Array(vec![])),
        ("bar".to_string(), JsonValue::integer(2)),
        ("foo".to_string(), JsonValue::integer(3)),
        ("model".to_string(), JsonValue::text("old")),
        ("model".to_string(), JsonValue::text("new")),
    ]);
    let request = ChatRequest::from_json(&tree).unwrap();
    assert_eq!(request.model.as_deref(), Some("new"));
    let names: Vec<&str> = request.extra_parameters.iter().map(|e| e.0.as_str()).collect();
    assert_eq!(names, vec!["bar", "foo"]);
    assert_eq!(request.extra_parameters[1].1.to_vec(), b"3".to_vec());
    assert_eq!(
        request.to_vec(),
        b"{\"bar\":2,\"foo\":3,\"messages\":[],\"model\":\"new\"}".to_vec()
    );
    match request.apply_policy(ExtraParameters::Error) {
        Err(AzureError::InternalParsing(message)) => assert!(message.contains(" bar,foo,")),
        _ => panic!("expected a refusal"),
    }
}

#[test]
fn extra_fields_are_kept_in_order_and_written_flat() {
    let payload =
        "{\"zeta\":1,\"messages\":[],\"alpha\":{\"k\":null},\"temperature\":1.5,\"beta\":[true]}";
    let request = read(payload);
    let names: Vec<&str> = request.extra_parameters.iter().map(|e| e.0.as_str()).collect();
    assert_eq!(names, vec!["alpha", "beta", "zeta"]);
    assert_eq!(as_value(&request.to_vec()), as_value(payload.as_bytes()));
}

#[test]
fn round_trip_of_a_request() {
    let request = ChatRequest {
        model: Some("gpt".to_string()),
        messages: vec![
            ChatRequestMessage::System { content: "s".to_string() },
            ChatRequestMessage::Assistant {
                audio: Some(ChatRequestAudioReference { id: "a1".to_string() }),
                content: "c".to_string(),
                tool_calls: Some(vec![ChatCompletionsToolCall::Function {
                    id: "call".to_string(),
                    function: FunctionCall { arguments: "{}".to_string(), name: "f".to_string() },
                }]),
            },
            ChatRequestMessage::Assistant { audio: None, content: "d".to_string(), tool_calls: None },
            ChatRequestMessage::Tool { content: "t".to_string(), tool_call_id: "call".to_string() },
        ],
        frequency_penalty: Some(JsonNumber::Float("0.5".to_string())),
        max_tokens: Some(u32::MAX),
        presence_penalty: Some(JsonNumber::NegInt(-1)),
        top_p: Some(JsonNumber::PosInt(1)),
        seed: Some(i64::MIN),
        stop: Some(vec!["x".to_string()]),
        stream: Some(true),
        temperature: None,
        response_format: Some(ChatCompletionsResponseFormat::JsonSchema {
            description: "d".to_string(),
            name: "n".to_string(),
            schema: JsonValue::Null,
            strict: true,
        }),
        tool_choice: Some(ToolChoice::Function(FunctionTool {
            tool_type: "function".to_string(),
            function: FunctionSpec { name: "f".to_string() },
        })),
        extra_parameters: vec![("foo".to_string(), JsonValue::text("bar"))],
    };
    let bytes = request.to_vec();
    assert_eq!(
        String::from_utf8(bytes.clone()).unwrap(),
        "{\"foo\":\"bar\",\"frequency_penalty\":0.5,\"max_tokens\":4294967295,\"messages\":[{\"content\":\"s\",\"role\":\"system\"},{\"audio\":{\"id\":\"a1\"},\"content\":\"c\",\"role\":\"assistant\",\"tool_calls\":[{\"function\":{\"arguments\":\"{}\",\"name\":\"f\"},\"id\":\"call\",\"type\":\"function\"}]},{\"content\":\"d\",\"role\":\"assistant\"},{\"content\":\"t\",\"role\":\"tool\",\"tool_call_id\":\"call\"}],\"model\":\"gpt\",\"presence_penalty\":-1,\"response_format\":{\"description\":\"d\",\"name\":\"n\",\"schema\":null,\"strict\":true,\"type\":\"json_schema\"},\"seed\":-9223372036854775808,\"stop\":[\"x\"],\"stream\":true,\"tool_choice\":{\"function\":{\"name\":\"f\"},\"type\":\"function\"},\"top_p\":1}"
    );
    let again = ChatRequest::from_slice(&bytes, ExtraParameters::PassThrough).unwrap();
    assert_eq!(again.to_vec(), bytes);
    assert_eq!(again.messages.len(), 4);
    assert_eq!(again.max_tokens, Some(u32::MAX));
    assert_eq!(again.seed, Some(i64::MIN));
    assert_eq!(again.extra_parameters.len(), 1);
}

#[test]
fn payload_that_is_no_json_is_refused() {
    let message = message_of("{\"messages\":");
    assert!(message.starts_with("EOF while parsing"));
    assert!(ChatRequest::from_slice(&[0xff], ExtraParameters::PassThrough).is_err());
}

#[test]
fn payload_that_is_no_object_is_refused() {
    assert_eq!(message_of("[]"), "invalid type: expected a JSON object");
    assert_eq!(message_of("\"x\""), "invalid type: expected a JSON object");
    assert_eq!(message_of("null"), "invalid type: expected a JSON object");
}

#[test]
fn missing_messages_are_refused() {
    assert_eq!(message_of("{}"), "missing field `messages`");
    assert_eq!(message_of("{\"model\":\"m\"}"), "missing field `messages`");
}

#[test]
fn wrong_types_are_refused_by_field() {
    assert_eq!(message_of("{\"messages\":[],\"model\":1}"), "invalid value for field `model`");
    assert_eq!(message_of("{\"messages\":null}"), "invalid value for field `messages`");
    assert_eq!(message_of("{\"messages\":{}}"), "invalid value for field `messages`");
    assert_eq!(
        message_of("{\"messages\":[],\"frequency_penalty\":\"1\"}"),
        "invalid value for field `frequency_penalty`"
    );
    assert_eq!(
        message_of("{\"messages\":[],\"max_tokens\":-1}"),
        "invalid value for field `max_tokens`"
    );
    assert_eq!(
        message_of("{\"messages\":[],\"max_tokens\":1.0}"),
        "invalid value for field `max_tokens`"
    );
    assert_eq!(
        message_of("{\"messages\":[],\"max_tokens\":4294967296}"),
        "invalid value for field `max_tokens`"
    );
    assert_eq!(
        message_of("{\"messages\":[],\"presence_penalty\":true}"),
        "invalid value for field `presence_penalty`"
    );
    assert_eq!(message_of("{\"messages\":[],\"top_p\":[]}"), "invalid value for field `top_p`");
    assert_eq!(message_of("{\"messages\":[],\"seed\":0.5}"), "invalid value for field `seed`");
    assert_eq!(
        message_of("{\"messages\":[],\"seed\":9223372036854775808}"),
        "invalid value for field `seed`"
    );
    assert_eq!(message_of("{\"messages\":[],\"stop\":\"x\"}"), "invalid value for field `stop`");
    assert_eq!(message_of("{\"messages\":[],\"stream\":1}"), "invalid value for field `stream`");
    assert_eq!(
        message_of("{\"messages\":[],\"temperature\":\"hot\"}"),
        "invalid value for field `temperature`"
    );
    assert_eq!(
        message_of("{\"messages\":[],\"response_format\":{\"type\":\"xml\"}}"),
        "invalid value for field `response_format`"
    );
    assert_eq!(
        message_of("{\"messages\":[],\"tool_choice\":\"maybe\"}"),
        "invalid value for field `tool_choice`"
    );
}

#[test]
fn first_wrong_field_in_the_order_of_the_contract_is_named() {
    assert_eq!(
        message_of("{\"tool_choice\":1,\"seed\":\"x\",\"model\":[]}"),
        "invalid value for field `model`"
    );
    assert_eq!(
        message_of("{\"tool_choice\":1,\"seed\":\"x\",\"messages\":[]}"),
        "invalid value for field `seed`"
    );
}

#[test]
fn messages_are_told_apart_by_role() {
    let system = parse("{\"role\":\"system\",\"content\":\"a\"}");
    assert!(matches!(
        ChatRequestMessage::from_json(&system),
        Some(ChatRequestMessage::System { content }) if content == "a"
    ));
    let user = parse("{\"content\":\"b\",\"role\":\"user\",\"name\":\"ignored\"}");
    assert!(matches!(
        ChatRequestMessage::from_json(&user),
        Some(ChatRequestMessage::User { content }) if content == "b"
    ));
    let tool = parse("{\"role\":\"tool\",\"content\":\"c\",\"tool_call_id\":\"1\"}");
    assert!(matches!(
        ChatRequestMessage::from_json(&tool),
        Some(ChatRequestMessage::Tool { content, tool_call_id }) if content == "c" && tool_call_id == "1"
    ));
    let assistant = parse(
        "{\"role\":\"assistant\",\"content\":\"d\",\"audio\":null,\"tool_calls\":[{\"type\":\"function\",\"id\":\"i\",\"function\":{\"name\":\"n\",\"arguments\":\"a\"}}]}",
    );
    match ChatRequestMessage::from_json(&assistant) {
        Some(ChatRequestMessage::Assistant { audio, content, tool_calls }) => {
            assert!(audio.is_none());
            assert_eq!(content, "d");
            let calls = tool_calls.unwrap();
            assert_eq!(calls.len(), 1);
            match &calls[0] {
                ChatCompletionsToolCall::Function { id, function } => {
                    assert_eq!(id, "i");
                    assert_eq!(function.name, "n");
                    assert_eq!(function.arguments, "a");
                }
            }
        }
        _ => panic!("expected an assistant message"),
    }
}

#[test]
fn messages_of_a_wrong_shape_are_refused() {
    for text in [
        "{\"content\":\"a\"}",
        "{\"role\":\"system\"}",
        "{\"role\":\"robot\",\"content\":\"a\"}",
        "{\"role\":\"System\",\"content\":\"a\"}",
        "{\"role\":\"tool\",\"content\":\"a\"}",
        "{\"role\":\"user\",\"content\":1}",
        "{\"role\":\"assistant\",\"content\":\"a\",\"audio\":{}}",
        "{\"role\":\"assistant\",\"content\":\"a\",\"tool_calls\":{}}",
        "{\"role\":\"assistant\",\"content\":\"a\",\"tool_calls\":[{\"type\":\"other\",\"id\":\"i\",\"function\":{\"name\":\"n\",\"arguments\":\"a\"}}]}",
        "\"user\"",
        "[]",
    ] {
        assert!(ChatRequestMessage::from_json(&parse(text)).is_none(), "{}", text);
    }
    assert_eq!(
        message_of("{\"messages\":[{\"role\":\"user\",\"content\":\"a\"},{\"role\":\"x\",\"content\":\"b\"}]}"),
        "invalid value for field `messages`"
    );
}

#[test]
fn message_is_written_with_its_role() {
    assert_eq!(
        ChatRequestMessage::User { content: "hi".to_string() }.to_json().to_vec(),
        b"{\"content\":\"hi\",\"role\":\"user\"}".to_vec()
    );
    assert_eq!(
        ChatRequestMessage::Assistant { audio: None, content: "x".to_string(), tool_calls: None }
            .to_json()
            .to_vec(),
        b"{\"content\":\"x\",\"role\":\"assistant\"}".to_vec()
    );
}

#[test]
fn tool_choice_is_a_name_or_a_function_tool() {
    assert!(matches!(ToolChoice::from_json(&parse("\"none\"")), Some(ToolChoice::NoTool)));
    assert!(matches!(ToolChoice::from_json(&parse("\"auto\"")), Some(ToolChoice::Auto)));
    assert!(matches!(ToolChoice::from_json(&parse("\"required\"")), Some(ToolChoice::Required)));
    match ToolChoice::from_json(&parse("{\"type\":\"function\",\"function\":{\"name\":\"f\"}}")) {
        Some(ToolChoice::Function(tool)) => {
            assert_eq!(tool.tool_type, "function");
            assert_eq!(tool.function.name, "f");
        }
        _ => panic!("expected a function tool"),
    }
    for text in ["\"None\"", "\"\"", "1", "null", "true", "[]", "{}", "{\"type\":\"function\"}",
        "{\"type\":\"function\",\"function\":{}}", "{\"function\":{\"name\":\"f\"}}"]
    {
        assert!(ToolChoice::from_json(&parse(text)).is_none(), "{}", text);
    }
}

#[test]
fn tool_choice_is_written_as_it_is_read() {
    assert_eq!(ToolChoice::NoTool.to_json().to_vec(), b"\"none\"".to_vec());
    assert_eq!(ToolChoice::Auto.to_json().to_vec(), b"\"auto\"".to_vec());
    assert_eq!(ToolChoice::Required.to_json().to_vec(), b"\"required\"".to_vec());
    let tool = ToolChoice::Function(FunctionTool {
        tool_type: "function".to_string(),
        function: FunctionSpec { name: "f".to_string() },
    });
    assert_eq!(
        tool.to_json().to_vec(),
        b"{\"function\":{\"name\":\"f\"},\"type\":\"function\"}".to_vec()
    );
}

#[test]
fn response_format_is_told_apart_by_type() {
    assert!(matches!(
        ChatCompletionsResponseFormat::from_json(&parse("{\"type\":\"text\"}")),
        Some(ChatCompletionsResponseFormat::Text)
    ));
    assert!(matches!(
        ChatCompletionsResponseFormat::from_json(&parse("{\"type\":\"json_object\"}")),
        Some(ChatCompletionsResponseFormat::JsonObject)
    ));
    let text = "{\"type\":\"json_schema\",\"description\":\"d\",\"name\":\"n\",\"schema\":{\"a\":1},\"strict\":false}";
    match ChatCompletionsResponseFormat::from_json(&parse(text)) {
        Some(ChatCompletionsResponseFormat::JsonSchema { description, name, schema, strict }) => {
            assert_eq!(description, "d");
            assert_eq!(name, "n");
            assert_eq!(schema.to_vec(), b"{\"a\":1}".to_vec());
            assert!(!strict);
        }
        _ => panic!("expected a JSON schema"),
    }
    for text in ["{}", "{\"type\":\"json_schema\"}", "{\"type\":1}", "\"text\"",
        "{\"type\":\"json_schema\",\"description\":\"d\",\"name\":\"n\",\"strict\":false}",
        "{\"type\":\"json_schema\",\"description\":\"d\",\"name\":\"n\",\"schema\":{},\"strict\":1}"]
    {
        assert!(ChatCompletionsResponseFormat::from_json(&parse(text)).is_none(), "{}", text);
    }
    assert_eq!(
        ChatCompletionsResponseFormat::from_json(&parse(text)).unwrap().to_json().to_vec(),
        as_bytes_sorted(text)
    );
}

fn as_bytes_sorted(text: &str) -> Vec<u8> {
    serde_json::to_vec(&as_value(text.as_bytes())).unwrap()
}

#[test]
fn function_definition_is_read_and_written() {
    let text = "{\"description\":\"d\",\"name\":\"n\",\"parameters\":{\"type\":\"object\"}}";
    let definition = FunctionDefinition::from_json(&parse(text)).unwrap();
    assert_eq!(definition.description, "d");
    assert_eq!(definition.name, "n");
    assert_eq!(definition.to_json().to_vec(), text.as_bytes().to_vec());
    assert!(FunctionDefinition::from_json(&parse("{\"description\":\"d\",\"name\":\"n\"}")).is_none());
}

#[test]
fn recognized_names_are_those_of_the_contract() {
    for name in ["model", "messages", "frequency_penalty", "max_tokens", "presence_penalty",
        "top_p", "seed", "stop", "stream", "temperature", "response_format", "tool_choice"]
    {
        assert!(is_recognized_name(name), "{}", name);
    }
    for name in ["", "foo", "Model", "tools", "n", "extra_parameters", "model ", "modalities"] {
        assert!(!is_recognized_name(name), "{}", name);
    }
}

#[test]
fn from_json_reads_a_tree() {
    let request = ChatRequest::from_json(&parse("{\"messages\":[],\"x\":1}")).unwrap();
    assert_eq!(request.extra_parameters.len(), 1);
    assert_eq!(ChatRequest::from_json(&JsonValue::Null).unwrap_err(), "invalid type: expected a JSON object");
    assert_eq!(request.to_json().to_vec(), b"{\"messages\":[],\"x\":1}".to_vec());
}
