//! The completion request: endpoint, authentication and JSON body.
use vstd::prelude::*;

use crate::config::RequestConfig;
use crate::tools::{translate_tools, translates, Tool, ToolFunction};

verus! {

/// A chat message: who speaks, and what is said.
#[derive(Debug)]
pub struct Message {
    pub role: String,
    pub content: String,
}

/// The input of a completion that offers tools: the tools, and the
/// conversation whose first message is the prompt.
#[derive(Debug)]
pub struct CompletionToolInput {
    pub tools: Vec<Tool>,
    pub messages: Vec<Message>,
}

/// The JSON body of a completion request, as values.
#[derive(Debug)]
pub struct RequestBody {
    /// The binary32 bit pattern of the sampling temperature.
    pub temperature_bits: u32,
    /// The system message, then the user message.
    pub messages: Vec<Message>,
    /// The tools in the provider's format; absent when there are none.
    pub tools: Option<Vec<ToolFunction>>,
}

/// A completion request, ready to be sent.
#[derive(Debug)]
pub struct ProviderRequest {
    pub method: String,
    pub url: String,
    /// The value of the `Authorization` header.
    pub authorization: String,
    /// The value of the `Content-Type` header.
    pub content_type: String,
    pub body: RequestBody,
}

/// The endpoint that runs `model` for `account`.
pub open spec fn endpoint(account: Seq<char>, model: Seq<char>) -> Seq<char> {
    "https://api.cloudflare.com/client/v4/accounts/"@ + account + "/ai/run/"@ + model
}

/// The `Authorization` header value for an API key.
pub open spec fn bearer(api_key: Seq<char>) -> Seq<char> {
    "Bearer "@ + api_key
}

/// The endpoint that runs `model` for `account`.
pub fn endpoint_url(account: &str, model: &str) -> (r: String)
    ensures
        r@ == endpoint(account@, model@),
{
    String::from_str("https://api.cloudflare.com/client/v4/accounts/").concat(account).concat(
        "/ai/run/",
    ).concat(model)
}

/// The prompt of a conversation: the content of its first message, or
/// nothing when it has none.
pub fn first_prompt(messages: &Vec<Message>) -> (r: Option<String>)
    ensures
        messages@.len() == 0 ==> r is None,
        messages@.len() > 0 ==> (r matches Some(p) && p@ == messages@[0].content@),
{
    if messages.len() == 0 {
        None
    } else {
        Some(messages[0].content.clone())
    }
}

/// Builds the request that asks the configured model to complete `prompt`:
/// a POST of JSON to the model's endpoint for the account, with the API key
/// as bearer token. The body holds the temperature, a system message with
/// the configured role and a user message with the prompt, and the tools in
/// the provider's format, in their order, only when there is at least one.
pub fn build_request(config: &RequestConfig, prompt: String, tools: Option<Vec<Tool>>) -> (r:
    ProviderRequest)
    ensures
        r.method@ == "POST"@,
        r.url@ == endpoint(config.account_id@, config.model.name@),
        r.authorization@ == bearer(config.api_key@),
        r.content_type@ == "application/json"@,
        r.body.temperature_bits == config.temperature_bits,
        r.body.messages@.len() == 2,
        r.body.messages@[0].role@ == "system"@,
        r.body.messages@[0].content@ == config.role@,
        r.body.messages@[1].role@ == "user"@,
        r.body.messages@[1].content@ == prompt@,
        match tools {
            None => r.body.tools is None,
            Some(ts) => if ts@.len() == 0 {
                r.body.tools is None
            } else {
                r.body.tools matches Some(fs) && fs@.len() == ts@.len() && forall|i: int|
                    0 <= i < ts@.len() ==> translates(#[trigger] ts@[i], fs@[i])
            },
        },
{
    let mut messages: Vec<Message> = Vec::new();
    messages.push(Message { role: String::from_str("system"), content: config.role.clone() });
    messages.push(Message { role: String::from_str("user"), content: prompt });
    let translated = match tools {
        Some(ts) => translate_tools(ts),
        None => Vec::new(),
    };
    let tools = if translated.len() == 0 {
        None
    } else {
        Some(translated)
    };
    ProviderRequest {
        method: String::from_str("POST"),
        url: endpoint_url(config.account_id.as_str(), config.model.name.as_str()),
        authorization: String::from_str("Bearer ").concat(config.api_key.as_str()),
        content_type: String::from_str("application/json"),
        body: RequestBody { temperature_bits: config.temperature_bits, messages, tools },
    }
}

} // verus!
