use responder::endpoint::{handle, ok_response, Method, Payload, Response};
use responder::json::json_string_object;

const EXPECTED_BODY: &str = "{\"success\":\"true\"}";
const EXPECTED_CONTENT_TYPE: &str = "application/json";

#[test]
fn get_root_returns_200() {
    let r = handle(Method::Get, "/");
    let resp = r.expect("GET / must be answered");
    assert_eq!(resp.status, 200);
    assert_eq!(resp.content_type, EXPECTED_CONTENT_TYPE);
    assert_eq!(resp.body, EXPECTED_BODY);
}

#[test]
fn body_parses_as_string_valued_object() {
    let resp = handle(Method::Get, "/").expect("GET / must be answered");
    let parsed: serde_json::Value =
        serde_json::from_str(&resp.body).expect("body must be valid JSON");
    let obj = parsed.as_object().expect("body must be a JSON object");
    assert_eq!(obj.len(), 1);
    let success = obj.get("success").expect("body must have a `success` member");
    assert_eq!(*success, serde_json::Value::String("true".to_string()));
    assert_ne!(*success, serde_json::Value::Bool(true));
}

#[test]
fn repeated_invocations_are_identical() {
    let first = handle(Method::Get, "/").expect("GET / must be answered");
    let second = handle(Method::Get, "/").expect("GET / must be answered");
    assert_eq!(first.status, second.status);
    assert_eq!(first.content_type, second.content_type);
    assert_eq!(first.body, second.body);
}

#[test]
fn other_paths_are_delegated() {
    assert!(handle(Method::Get, "/health").is_none());
    assert!(handle(Method::Get, "").is_none());
    assert!(handle(Method::Get, "//").is_none());
    assert!(handle(Method::Get, "/index.html").is_none());
}

#[test]
fn post_root_is_delegated() {
    assert!(handle(Method::Post, "/").is_none());
    assert!(handle(Method::Put, "/").is_none());
    assert!(handle(Method::Delete, "/").is_none());
    assert!(handle(Method::Head, "/").is_none());
}

#[test]
fn payload_holds_the_fixed_text() {
    let p = Payload::new();
    assert_eq!(p.success, "true");
}

#[test]
fn payload_serializes_to_the_fixed_body() {
    let p = Payload::new();
    assert_eq!(p.to_json(), EXPECTED_BODY);
}

#[test]
fn ok_response_is_the_fixed_response() {
    let resp: Response = ok_response();
    assert_eq!(resp.status, 200);
    assert_eq!(resp.content_type, EXPECTED_CONTENT_TYPE);
    assert_eq!(resp.body, EXPECTED_BODY);
}

#[test]
fn json_builder_quotes_key_and_value() {
    assert_eq!(json_string_object("k", "v"), "{\"k\":\"v\"}");
    assert_eq!(json_string_object("success", "true"), EXPECTED_BODY);
    assert_eq!(json_string_object("", ""), "{\"\":\"\"}");
}
