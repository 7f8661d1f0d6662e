use std::collections::HashMap;

use workers_ai::config::{resolve_config, ConfigValues};
use workers_ai::request::{build_request, endpoint_url, first_prompt, Message};
use workers_ai::tools::{default_type, translate_tools, InputSchema, Tool};

fn tool(name: Option<&str>, description: Option<&str>, field: &str) -> Tool {
    let mut properties = HashMap::new();
    properties.insert(field.to_string(), serde_json::Value::from("string"));
    Tool {
        name: name.map(|s| s.to_string()),
        description: description.map(|s| s.to_string()),
        input_schema: InputSchema {
            data_type: "object".to_string(),
            properties,
            required: vec![field.to_string()],
        },
        kind: default_type(),
    }
}

fn config() -> workers_ai::config::RequestConfig {
    resolve_config(ConfigValues {
        api_key: Some("SECRET-REDACTED".to_string()),
        account_id: Some("acct42".to_string()),
        model: Some("gemma-7b".to_string()),
        temperature: None,
        role: Some("you are terse".to_string()),
    })
    .unwrap()
}

#[test]
fn default_type_is_function() {
    assert_eq!(default_type(), "function");
}

#[test]
fn translate_empty_list() {
    assert!(translate_tools(Vec::new()).is_empty());
}

#[test]
fn translate_keeps_order_and_fills_absent_text() {
    let out = translate_tools(vec![
        tool(Some("search"), Some("looks things up"), "query"),
        tool(None, None, "path"),
        tool(Some("third"), None, "x"),
    ]);
    assert_eq!(out.len(), 3);
    assert_eq!(out[0].name, "search");
    assert_eq!(out[0].description, "looks things up");
    assert_eq!(out[0].parameters.param_type, "object");
    assert_eq!(out[0].parameters.required, vec!["query".to_string()]);
    assert_eq!(
        out[0].parameters.properties.get("query"),
        Some(&serde_json::Value::from("string"))
    );
    assert_eq!(out[1].name, "");
    assert_eq!(out[1].description, "");
    assert_eq!(out[1].parameters.required, vec!["path".to_string()]);
    assert_eq!(out[2].name, "third");
    assert_eq!(out[2].description, "");
}

#[test]
fn endpoint_is_templated() {
    assert_eq!(
        endpoint_url("abc", "@cf/microsoft/phi-2"),
        "https://api.cloudflare.com/client/v4/accounts/abc/ai/run/@cf/microsoft/phi-2"
    );
}

#[test]
fn request_without_tools() {
    let c = config();
    let r = build_request(&c, "hi there".to_string(), None);
    assert_eq!(r.method, "POST");
    assert_eq!(
        r.url,
        "https://api.cloudflare.com/client/v4/accounts/acct42/ai/run/@cf/google/gemma-7b-it"
    );
    assert_eq!(r.authorization, "Bearer SECRET-REDACTED");
    assert_eq!(r.content_type, "application/json");
    assert_eq!(f32::from_bits(r.body.temperature_bits), 0.7f32);
    assert_eq!(r.body.messages.len(), 2);
    assert_eq!(r.body.messages[0].role, "system");
    assert_eq!(r.body.messages[0].content, "you are terse");
    assert_eq!(r.body.messages[1].role, "user");
    assert_eq!(r.body.messages[1].content, "hi there");
    assert!(r.body.tools.is_none());
}

#[test]
fn request_with_empty_tool_list_has_no_tools() {
    let r = build_request(&config(), "p".to_string(), Some(Vec::new()));
    assert!(r.body.tools.is_none());
}

#[test]
fn request_with_tools() {
    let r = build_request(
        &config(),
        "p".to_string(),
        Some(vec![tool(Some("a"), None, "x"), tool(Some("b"), Some("d"), "y")]),
    );
    let tools = r.body.tools.unwrap();
    assert_eq!(tools.len(), 2);
    assert_eq!(tools[0].name, "a");
    assert_eq!(tools[1].name, "b");
    assert_eq!(tools[1].description, "d");
}

#[test]
fn prompt_is_first_message() {
    let msgs = vec![
        Message { role: "user".to_string(), content: "first".to_string() },
        Message { role: "user".to_string(), content: "second".to_string() },
    ];
    assert_eq!(first_prompt(&msgs), Some("first".to_string()));
    assert_eq!(first_prompt(&Vec::new()), None);
}
