use request_bridge::{
    attach_parsed, build_request, complete_response, BridgeError, Bundle, HostReply, RawResponse,
    Response, ENDPOINT, METHOD,
};
use serde_json::Value;

fn bundle_of(entries: Vec<(&str, Value)>) -> Bundle {
    let mut input_data = serde_json::Map::new();
    for (k, v) in entries {
        input_data.insert(k.to_string(), v);
    }
    Bundle { input_data }
}

fn raw(status: i32, content: &str) -> RawResponse {
    RawResponse { status, content: content.to_string() }
}

#[test]
fn request_carries_message() {
    let bundle = bundle_of(vec![("message", Value::from("hello"))]);
    let request = build_request(&bundle);
    assert_eq!(request.url, "https://httpbin.zapier-tooling.com/post");
    assert_eq!(request.url, ENDPOINT);
    assert_eq!(request.method, "POST");
    assert_eq!(request.method, METHOD);
    assert_eq!(request.body.len(), 1);
    assert_eq!(request.body.get("message"), Some(&Value::String("hello".to_string())));
}

#[test]
fn request_keeps_only_message() {
    let bundle = bundle_of(vec![
        ("message", Value::from("hi")),
        ("other", Value::from(3)),
        ("extra", Value::Bool(true)),
    ]);
    let request = build_request(&bundle);
    assert_eq!(request.body.len(), 1);
    assert_eq!(request.body.get("message"), Some(&Value::from("hi")));
    assert_eq!(request.body.get("other"), None);
}

#[test]
fn request_without_message_sends_empty_string() {
    let bundle = bundle_of(vec![("note", Value::from("x"))]);
    let request = build_request(&bundle);
    assert_eq!(request.body.len(), 1);
    assert_eq!(request.body.get("message"), Some(&Value::String(String::new())));
}

#[test]
fn request_from_empty_bundle() {
    let request = build_request(&bundle_of(vec![]));
    assert_eq!(request.method, "POST");
    assert_eq!(request.body.get("message"), Some(&Value::from("")));
}

#[test]
fn request_passes_non_string_message_through() {
    let bundle = bundle_of(vec![("message", Value::from(42))]);
    let request = build_request(&bundle);
    assert_eq!(request.body.get("message"), Some(&Value::from(42)));
}

#[test]
fn resolved_json_reply_is_parsed() {
    let result = complete_response::<String>(HostReply::Resolved(raw(200, "{\"a\":1}")));
    let mut expected = serde_json::Map::new();
    expected.insert("a".to_string(), Value::from(1));
    assert_eq!(
        result,
        Ok(Response {
            status: 200,
            content: "{\"a\":1}".to_string(),
            parsed_content: Value::Object(expected),
        })
    );
}

#[test]
fn resolved_reply_keeps_status() {
    let result = complete_response::<String>(HostReply::Resolved(raw(404, "[1, 2]")));
    let response = result.unwrap();
    assert_eq!(response.status, 404);
    assert_eq!(response.content, "[1, 2]");
    assert_eq!(response.parsed_content, Value::Array(vec![Value::from(1), Value::from(2)]));
}

#[test]
fn resolved_non_json_reply_is_parse_error() {
    let result = complete_response::<String>(HostReply::Resolved(raw(200, "not json")));
    assert_eq!(result, Err(BridgeError::Parse));
}

#[test]
fn resolved_empty_reply_is_parse_error() {
    let result = complete_response::<String>(HostReply::Resolved(raw(200, "")));
    assert_eq!(result, Err(BridgeError::Parse));
}

#[test]
fn rejected_request_error_is_handed_on() {
    let result = complete_response(HostReply::Rejected("network down".to_string()));
    assert_eq!(result, Err(BridgeError::Host("network down".to_string())));
}

#[test]
fn malformed_reply_is_decode_error() {
    let result = complete_response::<String>(HostReply::Malformed);
    assert_eq!(result, Err(BridgeError::Decode));
}

#[test]
fn attach_parsed_with_value() {
    let result = attach_parsed::<u8>(raw(201, "null"), Some(Value::Null));
    assert_eq!(
        result,
        Ok(Response { status: 201, content: "null".to_string(), parsed_content: Value::Null })
    );
}

#[test]
fn attach_parsed_without_value() {
    let result = attach_parsed::<u8>(raw(200, "oops"), None);
    assert_eq!(result, Err(BridgeError::Parse));
}
