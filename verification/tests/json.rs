use openai_azure_proxy::json::{find_field, is_last_of_name_at, push_entry, JsonNumber, JsonValue};

fn parse(text: &str) -> JsonValue {
    JsonValue::from_slice(text.as_bytes()).unwrap()
}

#[test]
fn json_text_round_trip() {
    let value = parse("{\"b\":[1,-2,0.5,null,true],\"a\":\"x\"}");
    assert_eq!(value.to_vec(), b"{\"a\":\"x\",\"b\":[1,-2,0.5,null,true]}".to_vec());
    match value.get("b") {
        Some(JsonValue::Array(items)) => {
            assert!(matches!(items[0], JsonValue::Number(JsonNumber::PosInt(1))));
            assert!(matches!(items[1], JsonValue::Number(JsonNumber::NegInt(-2))));
            match &items[2] {
                JsonValue::Number(JsonNumber::Float(text)) => assert_eq!(text, "0.5"),
                _ => panic!("expected a number held as text"),
            }
            assert!(matches!(items[3], JsonValue::Null));
            assert!(matches!(items[4], JsonValue::Bool(true)));
        }
        _ => panic!("expected an array"),
    }
}

#[test]
fn json_malformed_text_is_refused() {
    assert!(JsonValue::from_slice(b"{\"a\":").is_err());
    assert!(JsonValue::from_slice(b"").is_err());
    assert!(JsonValue::from_slice(&[0xff, 0xfe]).is_err());
    let message = JsonValue::from_slice(b"[1,]").unwrap_err();
    assert!(!message.is_empty());
}

#[test]
fn json_get_takes_the_last_entry_of_a_key() {
    let value = JsonValue::Object(vec![
        ("a".to_string(), JsonValue::integer(1)),
        ("b".to_string(), JsonValue::integer(2)),
        ("a".to_string(), JsonValue::integer(3)),
    ]);
    assert!(matches!(value.get("a"), Some(JsonValue::Number(JsonNumber::PosInt(3)))));
    assert!(matches!(value.get("b"), Some(JsonValue::Number(JsonNumber::PosInt(2)))));
    assert!(value.get("c").is_none());
    assert!(JsonValue::Null.get("a").is_none());
    match &value {
        JsonValue::Object(entries) => {
            assert_eq!(find_field(entries, "a"), Some(2));
            assert_eq!(find_field(entries, "b"), Some(1));
            assert_eq!(find_field(entries, "c"), None);
            assert!(!is_last_of_name_at(entries, 0));
            assert!(is_last_of_name_at(entries, 1));
            assert!(is_last_of_name_at(entries, 2));
        }
        _ => unreachable!(),
    }
    assert_eq!(value.to_vec(), b"{\"a\":3,\"b\":2}".to_vec());
}

#[test]
fn json_get_present_skips_null() {
    let value = parse("{\"a\":null,\"b\":false}");
    assert!(value.get("a").is_some());
    assert!(value.get_present("a").is_none());
    assert!(matches!(value.get_present("b"), Some(JsonValue::Bool(false))));
    assert!(value.get_present("c").is_none());
}

#[test]
fn json_typed_readers() {
    let value = parse(
        "{\"t\":\"x\",\"b\":true,\"u\":4294967295,\"big\":4294967296,\"neg\":-1,\"f\":1.5,\"l\":[\"a\",\"b\"],\"m\":[\"a\",1],\"min\":-9223372036854775808,\"max\":18446744073709551615}",
    );
    assert_eq!(value.text_at("t"), Some("x".to_string()));
    assert_eq!(value.text_at("b"), None);
    assert_eq!(value.text_at("zz"), None);
    assert_eq!(value.get("b").unwrap().as_bool(), Some(true));
    assert_eq!(value.get("t").unwrap().as_bool(), None);
    assert_eq!(value.get("u").unwrap().as_u32(), Some(u32::MAX));
    assert_eq!(value.get("big").unwrap().as_u32(), None);
    assert_eq!(value.get("neg").unwrap().as_u32(), None);
    assert_eq!(value.get("f").unwrap().as_u32(), None);
    assert_eq!(value.get("neg").unwrap().as_i32(), Some(-1));
    assert_eq!(value.get("big").unwrap().as_i32(), None);
    assert_eq!(value.get("big").unwrap().as_i64(), Some(4294967296));
    assert_eq!(value.get("min").unwrap().as_i64(), Some(i64::MIN));
    assert_eq!(value.get("max").unwrap().as_i64(), None);
    assert_eq!(value.get("f").unwrap().as_i64(), None);
    assert!(value.get("f").unwrap().as_number().is_some());
    assert!(value.get("t").unwrap().as_number().is_none());
    assert_eq!(value.get("l").unwrap().as_texts(), Some(vec!["a".to_string(), "b".to_string()]));
    assert_eq!(value.get("m").unwrap().as_texts(), None);
    assert_eq!(value.get("t").unwrap().as_texts(), None);
}

#[test]
fn json_optional_readers() {
    let value = parse("{\"t\":\"x\",\"n\":null,\"i\":7,\"b\":false,\"l\":[\"s\"]}");
    assert_eq!(value.optional_text("t"), Some(Some("x".to_string())));
    assert_eq!(value.optional_text("n"), Some(None));
    assert_eq!(value.optional_text("absent"), Some(None));
    assert_eq!(value.optional_text("i"), None);
    assert_eq!(value.optional_bool("b"), Some(Some(false)));
    assert_eq!(value.optional_bool("t"), None);
    assert_eq!(value.optional_u32("i"), Some(Some(7)));
    assert_eq!(value.optional_u32("t"), None);
    assert_eq!(value.optional_i32("i"), Some(Some(7)));
    assert_eq!(value.optional_i64("i"), Some(Some(7)));
    assert_eq!(value.optional_i64("n"), Some(None));
    assert!(matches!(value.optional_number("i"), Some(Some(JsonNumber::PosInt(7)))));
    assert!(value.optional_number("t").is_none());
    assert_eq!(value.optional_texts("l"), Some(Some(vec!["s".to_string()])));
    assert_eq!(value.optional_texts("i"), None);
}

#[test]
fn json_builders() {
    assert_eq!(JsonValue::text("a\"b").to_vec(), b"\"a\\\"b\"".to_vec());
    assert_eq!(
        JsonValue::texts(&vec!["a".to_string(), "b".to_string()]).to_vec(),
        b"[\"a\",\"b\"]".to_vec()
    );
    assert_eq!(JsonValue::integer(-5).to_vec(), b"-5".to_vec());
    assert_eq!(JsonValue::integer(0).to_vec(), b"0".to_vec());
    assert_eq!(JsonValue::integer(i64::MAX).to_vec(), b"9223372036854775807".to_vec());
    let mut entries = Vec::new();
    push_entry(&mut entries, "a", None);
    assert!(entries.is_empty());
    push_entry(&mut entries, "a", Some(JsonValue::Bool(true)));
    assert_eq!(JsonValue::Object(entries).to_vec(), b"{\"a\":true}".to_vec());
}

#[test]
fn json_number_text_that_is_no_number_is_written_as_null() {
    let value = JsonValue::Array(vec![
        JsonValue::Number(JsonNumber::Float("1e3".to_string())),
        JsonValue::Number(JsonNumber::Float("abc".to_string())),
    ]);
    assert_eq!(value.to_vec(), b"[1000.0,null]".to_vec());
}

#[test]
fn json_clone_keeps_the_value() {
    let value = parse("{\"a\":[1,{\"b\":null}],\"c\":\"d\",\"e\":-2.25}");
    assert_eq!(value.clone().to_vec(), value.to_vec());
}
