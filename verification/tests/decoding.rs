use asimov_gemini_module::codec::parse_document;
use asimov_gemini_module::json::JsonValue;

fn s(text: &str) -> String {
    text.to_string()
}

#[test]
fn parses_nested_document() {
    let text = "{\"a\": [1, true, \"x\", null, {\"b\": 2}]}";
    let expected = JsonValue::Obj(vec![(
        s("a"),
        JsonValue::Arr(vec![
            JsonValue::Num(1),
            JsonValue::Bool(true),
            JsonValue::Str(s("x")),
            JsonValue::Null,
            JsonValue::Obj(vec![(s("b"), JsonValue::Num(2))]),
        ]),
    )]);
    assert_eq!(parse_document(text), Some(expected));
}

#[test]
fn unrepresentable_numbers_decode_as_null() {
    let text = "{\"n\": -1, \"f\": 1.5}";
    let expected = JsonValue::Obj(vec![(s("f"), JsonValue::Null), (s("n"), JsonValue::Null)]);
    assert_eq!(parse_document(text), Some(expected));
}

#[test]
fn invalid_text_does_not_parse() {
    assert_eq!(parse_document("{\"a\": "), None);
    assert_eq!(parse_document(""), None);
}

#[test]
fn top_level_values_parse() {
    assert_eq!(parse_document("\"hi\""), Some(JsonValue::Str(s("hi"))));
    assert_eq!(parse_document("42"), Some(JsonValue::Num(42)));
    assert_eq!(parse_document("false"), Some(JsonValue::Bool(false)));
    assert_eq!(parse_document("null"), Some(JsonValue::Null));
    assert_eq!(parse_document("[]"), Some(JsonValue::Arr(vec![])));
}

#[test]
fn lookup_takes_first_matching_key() {
    let doc = JsonValue::Obj(vec![
        (s("k"), JsonValue::Num(1)),
        (s("k"), JsonValue::Num(2)),
    ]);
    assert_eq!(doc.get("k"), Some(&JsonValue::Num(1)));
    assert_eq!(doc.get("missing"), None);
    assert_eq!(JsonValue::Num(3).get("k"), None);
}

#[test]
fn utf8_text_survives_decoding() {
    let text = "{\"candidates\": [{\"content\": {\"role\": \"model\", \"parts\": [{\"text\": \"\u{3053}\u{3093}\u{306b}\u{3061}\u{306f} \u{2713}\"}]}}]}";
    let doc = parse_document(text).unwrap();
    let result = asimov_gemini_module::response::classify(200, &doc).unwrap();
    assert_eq!(result.segments, vec![s("\u{3053}\u{3093}\u{306b}\u{3061}\u{306f} \u{2713}")]);
}
