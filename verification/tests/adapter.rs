use asimov_gemini_module::Credential;
use asimov_gemini_module::json::JsonValue;
use asimov_gemini_module::request::{
    Options, Request, api_key_header, build_body, build_url, content_type_header,
    json_content_type,
};
use asimov_gemini_module::response::{Error, Response, classify, classify_response};

fn s(text: &str) -> String {
    text.to_string()
}

fn part(text: &str) -> JsonValue {
    JsonValue::Obj(vec![(s("text"), JsonValue::Str(s(text)))])
}

fn candidate(role: Option<&str>, parts: Vec<JsonValue>) -> JsonValue {
    let mut content: Vec<(String, JsonValue)> = Vec::new();
    if let Some(role) = role {
        content.push((s("role"), JsonValue::Str(s(role))));
    }
    content.push((s("parts"), JsonValue::Arr(parts)));
    JsonValue::Obj(vec![(s("content"), JsonValue::Obj(content))])
}

fn success_body(candidates: Vec<JsonValue>) -> JsonValue {
    JsonValue::Obj(vec![(s("candidates"), JsonValue::Arr(candidates))])
}

fn segments(result: Result<Response, Error>) -> Vec<String> {
    result.expect("expected a successful classification").segments
}

#[test]
fn no_limit_omits_generation_config() {
    let body = build_body(&Request { prompt: s("hello"), max_tokens: None });
    assert!(body.get("generationConfig").is_none());
    assert!(body.get("contents").is_some());
}

#[test]
fn limit_sets_max_output_tokens() {
    let body = build_body(&Request { prompt: s("hello"), max_tokens: Some(77) });
    let config = body.get("generationConfig").expect("generationConfig must be present");
    let limit = config.get("maxOutputTokens").expect("maxOutputTokens must be present");
    assert_eq!(*limit, JsonValue::Num(77));
}

#[test]
fn built_body_carries_prompt() {
    let body = build_body(&Request { prompt: s("What is the answer?"), max_tokens: None });
    let contents = body.get("contents").unwrap();
    let parts = match contents.get("parts").unwrap() {
        JsonValue::Arr(parts) => parts,
        other => panic!("parts should be an array, got {:?}", other),
    };
    assert_eq!(parts.len(), 1);
    let text = parts[0].get("text").unwrap();
    assert_eq!(*text, JsonValue::Str(s("What is the answer?")));
}

#[test]
fn model_candidate_two_parts() {
    let body = success_body(vec![candidate(Some("model"), vec![part("a"), part("b")])]);
    assert_eq!(segments(classify(200, &body)), vec![s("a"), s("b")]);
}

#[test]
fn user_role_contributes_nothing() {
    let body = success_body(vec![candidate(Some("user"), vec![part("echoed")])]);
    assert_eq!(segments(classify(200, &body)), Vec::<String>::new());
}

#[test]
fn user_candidate_skipped_among_model_candidates() {
    let body = success_body(vec![
        candidate(Some("user"), vec![part("echoed")]),
        candidate(Some("model"), vec![part("kept")]),
    ]);
    assert_eq!(segments(classify(200, &body)), vec![s("kept")]);
}

#[test]
fn absent_role_is_extracted() {
    let body = success_body(vec![candidate(None, vec![part("kept")])]);
    assert_eq!(segments(classify(200, &body)), vec![s("kept")]);
}

#[test]
fn missing_candidates_is_empty_success() {
    let body = JsonValue::Obj(vec![]);
    let response = classify(200, &body).expect("absence of candidates is not an error");
    assert_eq!(response, Response { segments: vec![] });
}

#[test]
fn non_array_candidates_is_empty_success() {
    let body = JsonValue::Obj(vec![(s("candidates"), JsonValue::Num(5))]);
    assert_eq!(segments(classify(200, &body)), Vec::<String>::new());
}

#[test]
fn part_without_text_is_skipped() {
    let no_text = JsonValue::Obj(vec![(s("note"), JsonValue::Str(s("ignored")))]);
    let body = success_body(vec![candidate(Some("model"), vec![no_text, part("kept")])]);
    assert_eq!(segments(classify(200, &body)), vec![s("kept")]);
}

#[test]
fn candidate_without_content_is_skipped() {
    let bare = JsonValue::Obj(vec![(s("finishReason"), JsonValue::Str(s("STOP")))]);
    let body = success_body(vec![bare, candidate(Some("model"), vec![part("kept")])]);
    assert_eq!(segments(classify(200, &body)), vec![s("kept")]);
}

#[test]
fn non_object_content_is_skipped() {
    let odd = JsonValue::Obj(vec![(s("content"), JsonValue::Str(s("not an object")))]);
    let body = success_body(vec![odd]);
    assert_eq!(segments(classify(200, &body)), Vec::<String>::new());
}

#[test]
fn failing_status_with_message() {
    let result = classify_response(400, "{\"error\": {\"message\": \"API key not valid.\"}}");
    match result {
        Err(Error::ServiceFailure { status, message }) => {
            assert_eq!(status, 400);
            assert_eq!(message, s("API key not valid."));
        },
        other => panic!("expected a service failure, got {:?}", other),
    }
}

#[test]
fn failing_status_without_message() {
    let result = classify_response(500, "{}");
    match result {
        Err(Error::ServiceFailure { status, message }) => {
            assert_eq!(status, 500);
            assert_eq!(message, s(""));
        },
        other => panic!("expected a service failure, got {:?}", other),
    }
}

#[test]
fn invalid_json_is_transport_failure() {
    let result = classify_response(200, "definitely not json");
    match result {
        Err(Error::TransportFailure { .. }) => {},
        other => panic!("expected a transport failure, got {:?}", other),
    }
}

#[test]
fn status_boundaries() {
    let body = "{}";
    assert!(classify_response(199, body).is_err());
    assert!(classify_response(200, body).is_ok());
    assert!(classify_response(299, body).is_ok());
    assert!(classify_response(300, body).is_err());
}

#[test]
fn round_trip_echo() {
    let prompt = "h\u{e9}llo w\u{f6}rld \u{2713}";
    let body = build_body(&Request { prompt: s(prompt), max_tokens: Some(8) });
    let contents = body.get("contents").unwrap();
    let echoed = match contents.get("parts").unwrap() {
        JsonValue::Arr(parts) => match parts[0].get("text").unwrap() {
            JsonValue::Str(text) => text.clone(),
            other => panic!("text should be a string, got {:?}", other),
        },
        other => panic!("parts should be an array, got {:?}", other),
    };
    assert_eq!(echoed, s(prompt));
    let reply = success_body(vec![candidate(Some("model"), vec![part(&echoed)])]);
    assert_eq!(segments(classify(200, &reply)), vec![s(prompt)]);
}

#[test]
fn build_url_interpolates_endpoint_and_model() {
    let options = Options::new(Credential::new(s("test-key")));
    assert_eq!(
        build_url(&options),
        s("https://generativelanguage.googleapis.com/v1beta/models/gemini-2.5-flash:generateContent"),
    );
    let options = options.with_endpoint(s("http://localhost:8080")).with_model(s("gemini-2.5-pro"));
    assert_eq!(
        build_url(&options),
        s("http://localhost:8080/v1beta/models/gemini-2.5-pro:generateContent"),
    );
}

#[test]
fn options_defaults_and_builders() {
    let options = Options::new(Credential::new(s("k"))).with_max_tokens(9);
    assert_eq!(options.endpoint, s("https://generativelanguage.googleapis.com"));
    assert_eq!(options.model, s("gemini-2.5-flash"));
    assert_eq!(options.max_tokens, Some(9));
}

#[test]
fn credential_exposes_only_on_demand() {
    let credential = Credential::new(s("top secret"));
    assert_eq!(credential.expose(), "top secret");
}

#[test]
fn header_names() {
    assert_eq!(api_key_header(), "x-goog-api-key");
    assert_eq!(content_type_header(), "content-type");
    assert_eq!(json_content_type(), "application/json");
}
