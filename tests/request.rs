use mentat_agent::request::{
    accept_input, build_output, create_error_response, model_name, process_request,
    round_to_millis, transform, Failure, InputData, EXIT_FAILURE, EXIT_SUCCESS, MODEL_ID,
    RESULT_PREFIX,
};

#[test]
fn processes_hello_world() {
    let out = process_request(InputData { text: Some("hello world".to_string()) });
    assert_eq!(out.result, "Processed: hello world");
    assert_eq!(out.mentat_meta.tokens_input, Some(2));
    assert_eq!(out.mentat_meta.tokens_output, Some(3));
    assert!(out.mentat_meta.millis.is_some());
    assert_eq!(out.mentat_meta.model, MODEL_ID);
}

#[test]
fn processes_missing_text_as_empty() {
    let out = process_request(InputData { text: None });
    assert_eq!(out.result, "Processed: ");
    assert_eq!(out.mentat_meta.tokens_input, Some(0));
    assert_eq!(out.mentat_meta.tokens_output, Some(1));
    assert_eq!(out.mentat_meta.model, MODEL_ID);
}

#[test]
fn processes_empty_text() {
    let out = process_request(InputData { text: Some(String::new()) });
    assert_eq!(out.result, "Processed: ");
    assert_eq!(out.mentat_meta.tokens_input, Some(0));
    assert_eq!(out.mentat_meta.tokens_output, Some(1));
}

#[test]
fn processes_unicode_and_long_text() {
    let long = "word ".repeat(10_000);
    let out = process_request(InputData { text: Some(long.clone()) });
    assert_eq!(out.result, format!("Processed: {}", long));
    assert_eq!(out.mentat_meta.tokens_input, Some(10_000));
    assert_eq!(out.mentat_meta.tokens_output, Some(10_001));
    let out = process_request(InputData { text: Some("日本 語".to_string()) });
    assert_eq!(out.result, "Processed: 日本 語");
    assert_eq!(out.mentat_meta.tokens_input, Some(2));
}

#[test]
fn transform_prefixes_text() {
    assert_eq!(transform("abc"), "Processed: abc");
    assert_eq!(transform(""), RESULT_PREFIX);
}

#[test]
fn builds_output_with_rounded_time() {
    let out = build_output("a b", "Processed: a b".to_string(), 1_234_567_890);
    assert_eq!(out.result, "Processed: a b");
    assert_eq!(out.mentat_meta.tokens_input, Some(2));
    assert_eq!(out.mentat_meta.tokens_output, Some(3));
    assert_eq!(out.mentat_meta.millis, Some(1235));
    assert_eq!(out.mentat_meta.model, MODEL_ID);
}

#[test]
fn rounds_to_nearest_millisecond() {
    assert_eq!(round_to_millis(0), 0);
    assert_eq!(round_to_millis(499_999), 0);
    assert_eq!(round_to_millis(500_000), 1);
    assert_eq!(round_to_millis(1_499_999), 1);
    assert_eq!(round_to_millis(2_500_000), 3);
    assert_eq!(round_to_millis(u128::MAX), u128::MAX / 1_000_000);
    assert_eq!(round_to_millis((u128::MAX / 1_000_000 - 1) * 1_000_000 + 500_000), u128::MAX / 1_000_000);
}

#[test]
fn refuses_empty_input() {
    assert_eq!(accept_input(""), Err(Failure::EmptyInput));
}

#[test]
fn refuses_whitespace_only_input() {
    let r = accept_input(" \n\t \r\n");
    assert_eq!(r, Err(Failure::EmptyInput));
    let f = r.unwrap_err();
    assert_eq!(f.exit_code(), 1);
    let doc = f.response();
    assert_eq!(doc.error, "No input received from stdin");
    assert_eq!(doc.mentat_meta.tokens_input, None);
    assert_eq!(doc.mentat_meta.tokens_output, None);
    assert_eq!(doc.mentat_meta.millis, None);
    assert_eq!(doc.mentat_meta.model, MODEL_ID);
}

#[test]
fn accepts_and_trims_input() {
    assert_eq!(accept_input("  {\"text\": \"hi\"} \n"), Ok("{\"text\": \"hi\"}".to_string()));
    assert_eq!(accept_input("not json"), Ok("not json".to_string()));
}

#[test]
fn reports_malformed_json() {
    let raw = accept_input("not json").unwrap();
    let err = serde_json::from_str::<serde_json::Value>(&raw).unwrap_err();
    let f = Failure::Decode(err.to_string());
    assert_eq!(f.exit_code(), EXIT_FAILURE);
    let doc = f.response();
    assert!(doc.error.contains("Invalid JSON input"));
    assert_eq!(doc.error, format!("Invalid JSON input: {}", err));
    assert_eq!(doc.mentat_meta.tokens_input, None);
    assert_eq!(doc.mentat_meta.model, MODEL_ID);
}

#[test]
fn reports_encode_failure() {
    let f = Failure::Encode("key must be a string".to_string());
    assert_eq!(f.message(), "JSON serialization error: key must be a string");
    assert_eq!(f.exit_code(), 1);
}

#[test]
fn error_response_carries_message_and_model() {
    let doc = create_error_response("boom".to_string());
    assert_eq!(doc.error, "boom");
    assert_eq!(doc.mentat_meta.tokens_input, None);
    assert_eq!(doc.mentat_meta.tokens_output, None);
    assert_eq!(doc.mentat_meta.millis, None);
    assert_eq!(doc.mentat_meta.model, model_name());
}

#[test]
fn exit_codes_differ() {
    assert_eq!(EXIT_SUCCESS, 0);
    assert_eq!(EXIT_FAILURE, 1);
}

#[test]
fn success_document_survives_json_round_trip() {
    let out = process_request(InputData { text: Some("round \"trip\" é\n".to_string()) });
    let mut meta = serde_json::Map::new();
    meta.insert("tokens_input".to_string(), serde_json::Value::from(out.mentat_meta.tokens_input.unwrap()));
    meta.insert("tokens_output".to_string(), serde_json::Value::from(out.mentat_meta.tokens_output.unwrap()));
    meta.insert("seconds".to_string(), serde_json::Value::from(out.mentat_meta.millis.unwrap() as f64 / 1000.0));
    meta.insert("model".to_string(), serde_json::Value::String(out.mentat_meta.model.clone()));
    let mut doc = serde_json::Map::new();
    doc.insert("result".to_string(), serde_json::Value::String(out.result.clone()));
    doc.insert("mentat_meta".to_string(), serde_json::Value::Object(meta));
    let text = serde_json::to_string(&serde_json::Value::Object(doc)).unwrap();
    let back: serde_json::Value = serde_json::from_str(&text).unwrap();
    assert_eq!(back["result"].as_str(), Some(out.result.as_str()));
    assert_eq!(back["mentat_meta"]["model"].as_str(), Some(MODEL_ID));
}
