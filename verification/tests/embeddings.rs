use openai_azure_proxy::json::JsonValue;
use openai_azure_proxy::schemas::embeddings::{
    EmbeddingEncodingFormat, EmbeddingInput, EmbeddingInputType, EmbeddingsRequest,
};

fn parse(text: &str) -> JsonValue {
    JsonValue::from_slice(text.as_bytes()).unwrap()
}

#[test]
fn embeddings_request_is_read_and_written() {
    let text = "{\"dimensions\":256,\"encoding_format\":\"ubinary\",\"input\":[\"a\",\"b\"],\"input_type\":\"query\",\"model\":\"m\",\"user\":\"u\"}";
    let request = EmbeddingsRequest::from_json(&parse(text)).unwrap();
    assert!(matches!(&request.input, EmbeddingInput::Batch(texts) if texts.len() == 2));
    assert_eq!(request.model, "m");
    assert_eq!(request.dimensions, Some(256));
    assert_eq!(request.encoding_format, Some(EmbeddingEncodingFormat::UBinary));
    assert_eq!(request.input_type, Some(EmbeddingInputType::Query));
    assert_eq!(request.extra_parameters.len(), 1);
    assert_eq!(request.extra_parameters[0].0, "user");
    assert_eq!(request.to_vec(), text.as_bytes().to_vec());
}

#[test]
fn embeddings_input_is_one_text_or_several() {
    let single = EmbeddingsRequest::from_json(&parse("{\"input\":\"a\",\"model\":\"m\"}")).unwrap();
    assert!(matches!(&single.input, EmbeddingInput::Single(text) if text == "a"));
    assert_eq!(single.dimensions, None);
    assert_eq!(single.to_vec(), b"{\"input\":\"a\",\"model\":\"m\"}".to_vec());
    assert!(EmbeddingInput::from_json(&parse("[1]")).is_none());
    assert!(EmbeddingInput::from_json(&parse("1")).is_none());
    assert!(matches!(EmbeddingInput::from_json(&parse("[]")), Some(EmbeddingInput::Batch(t)) if t.is_empty()));
}

#[test]
fn embeddings_request_of_a_wrong_shape_is_refused() {
    let message = |text: &str| EmbeddingsRequest::from_json(&parse(text)).unwrap_err();
    assert_eq!(message("[]"), "invalid type: expected a JSON object");
    assert_eq!(message("{\"model\":\"m\"}"), "missing field `input`");
    assert_eq!(message("{\"input\":1,\"model\":\"m\"}"), "invalid value for field `input`");
    assert_eq!(message("{\"input\":\"a\"}"), "missing field `model`");
    assert_eq!(message("{\"input\":\"a\",\"model\":null}"), "invalid value for field `model`");
    assert_eq!(
        message("{\"input\":\"a\",\"model\":\"m\",\"dimensions\":2147483648}"),
        "invalid value for field `dimensions`"
    );
    assert_eq!(
        message("{\"input\":\"a\",\"model\":\"m\",\"encoding_format\":\"Float\"}"),
        "invalid value for field `encoding_format`"
    );
    assert_eq!(
        message("{\"input\":\"a\",\"model\":\"m\",\"input_type\":\"image\"}"),
        "invalid value for field `input_type`"
    );
}

#[test]
fn embeddings_names_on_the_wire() {
    let formats = [
        (EmbeddingEncodingFormat::Base64, "base64"),
        (EmbeddingEncodingFormat::Binary, "binary"),
        (EmbeddingEncodingFormat::Float, "float"),
        (EmbeddingEncodingFormat::Int8, "int8"),
        (EmbeddingEncodingFormat::UBinary, "ubinary"),
        (EmbeddingEncodingFormat::UInt8, "uint8"),
    ];
    for (format, name) in formats {
        assert_eq!(format.as_str(), name);
        assert_eq!(EmbeddingEncodingFormat::from_json(&JsonValue::text(name)), Some(format));
    }
    let types = [
        (EmbeddingInputType::Document, "document"),
        (EmbeddingInputType::Query, "query"),
        (EmbeddingInputType::Text, "text"),
    ];
    for (input_type, name) in types {
        assert_eq!(input_type.as_str(), name);
        assert_eq!(EmbeddingInputType::from_json(&JsonValue::text(name)), Some(input_type));
    }
    assert_eq!(EmbeddingInputType::from_json(&JsonValue::Null), None);
    assert_eq!(EmbeddingEncodingFormat::from_json(&JsonValue::Bool(true)), None);
    assert_eq!(
        EmbeddingsRequest::from_json(&parse("{\"input\":\"a\",\"model\":\"m\",\"dimensions\":-2147483648}"))
            .unwrap()
            .dimensions,
        Some(i32::MIN)
    );
}

#[test]
fn embeddings_extra_parameters_have_each_name_once() {
    let tree = JsonValue::Object(vec![
        ("user".to_string(), JsonValue::text("a")),
        ("input".to_string(), JsonValue::text("x")),
        ("user".to_string(), JsonValue::text("b")),
        ("model".to_string(), JsonValue::text("m")),
    ]);
    let request = EmbeddingsRequest::from_json(&tree).unwrap();
    assert_eq!(request.extra_parameters.len(), 1);
    assert_eq!(request.extra_parameters[0].0, "user");
    assert_eq!(request.to_vec(), b"{\"input\":\"x\",\"model\":\"m\",\"user\":\"b\"}".to_vec());
}
