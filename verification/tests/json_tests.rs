use rddns::json::JsonValue;

#[test]
fn json_text_is_compact_and_escaped() {
    let v = JsonValue::Object(vec![
        ("a".to_string(), JsonValue::Int(-12)),
        ("b".to_string(), JsonValue::Array(vec![JsonValue::Bool(true), JsonValue::Null, JsonValue::UInt(7)])),
        ("c\"".to_string(), JsonValue::Str("x\n\t\\\"\u{1}é".to_string())),
    ]);
    let text = v.to_text();
    assert_eq!(text, "{\"a\":-12,\"b\":[true,null,7],\"c\\\"\":\"x\\n\\t\\\\\\\"\\u0001é\"}");
    // The text is what serde_json writes for the same document.
    let parsed: serde_json::Value = serde_json::from_str(&text).unwrap();
    assert_eq!(parsed["c\""], "x\n\t\\\"\u{1}é");
    assert_eq!(serde_json::to_string(&parsed["b"]).unwrap(), "[true,null,7]");
}

#[test]
fn json_empty_containers() {
    assert_eq!(JsonValue::Array(vec![]).to_text(), "[]");
    assert_eq!(JsonValue::Object(vec![]).to_text(), "{}");
    assert_eq!(JsonValue::Int(i64::MIN).to_text(), "-9223372036854775808");
    assert_eq!(JsonValue::Str("\u{8}\u{c}\r\u{1f}".to_string()).to_text(), "\"\\b\\f\\r\\u001f\"");
}
