use std::collections::HashMap;

use workers_ai::response::{
    classify_response, classify_status, text_of, tool_invocations, ProviderError,
    ProviderResponse, ToolCall,
};

#[test]
fn status_200_gives_body() {
    assert_eq!(classify_response(200, b"{\"result\":{}}").unwrap(), "{\"result\":{}}");
}

#[test]
fn other_status_gives_call_failed_with_body() {
    for status in [400u16, 401, 404, 500, 201, 204] {
        match classify_response(status, b"  oops: bad\n") {
            Err(ProviderError::ProviderCallFailed { status: s, body }) => {
                assert_eq!(s, status);
                assert_eq!(body, "  oops: bad\n");
            }
            other => panic!("unexpected {:?}", other),
        }
    }
}

#[test]
fn body_not_utf8_is_malformed() {
    assert!(matches!(classify_response(200, &[0xff, 0xfe]), Err(ProviderError::MalformedResponse)));
    assert!(matches!(classify_response(500, &[0xc3]), Err(ProviderError::MalformedResponse)));
    assert!(matches!(classify_status(200, None), Err(ProviderError::MalformedResponse)));
}

#[test]
fn classify_status_from_text() {
    assert_eq!(classify_status(200, Some("x".to_string())).unwrap(), "x");
    assert!(matches!(
        classify_status(503, Some("down".to_string())),
        Err(ProviderError::ProviderCallFailed { status: 503, ref body }) if body == "down"
    ));
}

#[test]
fn text_mode_returns_response() {
    let r = ProviderResponse { response: Some("hello".to_string()), tool_calls: None };
    assert_eq!(text_of(r), "hello");
}

#[test]
fn text_mode_defaults_to_empty() {
    let r = ProviderResponse { response: None, tool_calls: None };
    assert_eq!(text_of(r), "");
}

#[test]
fn tool_mode_reshapes_calls() {
    let mut args = HashMap::new();
    args.insert("x".to_string(), serde_json::Value::from(1));
    let r = ProviderResponse {
        response: None,
        tool_calls: Some(vec![
            ToolCall { name: "foo".to_string(), arguments: Some(args) },
            ToolCall { name: "bar".to_string(), arguments: None },
        ]),
    };
    let v = tool_invocations(r).unwrap();
    assert_eq!(v.len(), 2);
    assert_eq!(v[0].name, "foo");
    assert_eq!(v[0].input.len(), 1);
    assert_eq!(v[0].input.get("x"), Some(&serde_json::Value::from(1)));
    assert_eq!(v[1].name, "bar");
    assert!(v[1].input.is_empty());
}

#[test]
fn tool_mode_without_calls_fails() {
    let r = ProviderResponse { response: Some("text".to_string()), tool_calls: None };
    match tool_invocations(r) {
        Err(ProviderError::NoToolCallsReturned(e)) => {
            assert_eq!(e.response, Some("text".to_string()));
            assert!(e.tool_calls.is_none());
        }
        other => panic!("unexpected {:?}", other),
    }
}

#[test]
fn tool_mode_with_empty_list() {
    let r = ProviderResponse { response: None, tool_calls: Some(Vec::new()) };
    assert!(tool_invocations(r).unwrap().is_empty());
}
