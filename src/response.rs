//! Interpretation of the provider's answer: the HTTP status, the body
//! text, and the two kinds of result that the envelope may carry.
use vstd::prelude::*;

use std::collections::HashMap;

verus! {

/// A tool invocation as the provider reports it.
#[derive(Debug)]
pub struct ToolCall {
    pub name: String,
    pub arguments: Option<HashMap<String, serde_json::Value>>,
}

/// The `result` object of the provider's envelope: a text answer, tool
/// invocations, or neither.
#[derive(Debug)]
pub struct ProviderResponse {
    pub response: Option<String>,
    pub tool_calls: Option<Vec<ToolCall>>,
}

/// A tool invocation as it is handed to the caller.
#[derive(Debug)]
pub struct ToolInvocation {
    pub name: String,
    pub input: HashMap<String, serde_json::Value>,
}

/// A function invocation in the format of chat tool results.
#[derive(Debug)]
pub struct ToolFunctionResult {
    pub name: String,
    /// The arguments, as JSON text.
    pub arguments: Option<String>,
}

/// A tool result in the format of chat tool results.
#[derive(Debug)]
pub struct ToolResult {
    pub id: String,
    pub kind: String,
    pub function: ToolFunctionResult,
}

/// Why a provider call gave no usable result.
#[derive(Debug)]
pub enum ProviderError {
    /// The provider answered with a status other than 200.
    ProviderCallFailed { status: u16, body: String },
    /// The body is not text, or not the expected envelope.
    MalformedResponse,
    /// Tool invocations were asked for and the envelope holds none.
    NoToolCallsReturned(ProviderResponse),
}

/// What `std::str::from_utf8` makes of a byte sequence: its text, or
/// nothing when the bytes are not UTF-8.
pub uninterp spec fn utf8_text(b: Seq<u8>) -> Option<Seq<char>>;

/// Relies on `std::str::from_utf8`: the decoded text, or `None` when the
/// bytes are not valid UTF-8; the outcome depends on the bytes alone.
#[verifier::external_body]
fn decode_utf8(b: &[u8]) -> (r: Option<String>)
    ensures
        match utf8_text(b@) {
            Some(t) => r matches Some(s) && s@ == t,
            None => r is None,
        },
{
    std::str::from_utf8(b).ok().map(|s| s.to_string())
}

/// Classifies a provider answer from its status and its body text (`None`
/// when the body is not text). Status 200 with text gives the text; any
/// other status with text gives `ProviderCallFailed` with that status and the text
/// unchanged; a body that is not text gives `MalformedResponse`.
pub fn classify_status(status: u16, body: Option<String>) -> (r: Result<String, ProviderError>)
    ensures
        match body {
            None => r matches Err(ProviderError::MalformedResponse),
            Some(t) => if status == 200 {
                r matches Ok(s) && s@ == t@
            } else {
                r matches Err(ProviderError::ProviderCallFailed { status: st, body: b }) && st == status
                    && b@ == t@
            },
        },
{
    match body {
        None => Err(ProviderError::MalformedResponse),
        Some(t) => if status == 200 {
            Ok(t)
        } else {
            Err(ProviderError::ProviderCallFailed { status, body: t })
        },
    }
}

/// Classifies a provider answer from its status and its raw body, decoded
/// as UTF-8; see `classify_status`.
pub fn classify_response(status: u16, body: &[u8]) -> (r: Result<String, ProviderError>)
    ensures
        match utf8_text(body@) {
            None => r matches Err(ProviderError::MalformedResponse),
            Some(t) => if status == 200 {
                r matches Ok(s) && s@ == t
            } else {
                r matches Err(ProviderError::ProviderCallFailed { status: st, body: b }) && st == status
                    && b@ == t
            },
        },
{
    classify_status(status, decode_utf8(body))
}

/// The text answer of a response, or the empty text when it has none.
pub fn text_of(resp: ProviderResponse) -> (r: String)
    ensures
        r@ == match resp.response {
            Some(s) => s@,
            None => Seq::<char>::empty(),
        },
{
    match resp.response {
        Some(s) => s,
        None => String::new(),
    }
}

/// `v` is the caller-facing form of `c`: the same name, and the arguments
/// as input, or no input entries when the arguments are absent.
pub open spec fn reshapes(c: ToolCall, v: ToolInvocation) -> bool {
    &&& v.name == c.name
    &&& match c.arguments {
        Some(m) => v.input == m,
        None => v.input@ == Map::<String, serde_json::Value>::empty(),
    }
}

/// Reshapes one reported invocation into its caller-facing form.
pub fn reshape_call(c: ToolCall) -> (v: ToolInvocation)
    ensures
        reshapes(c, v),
{
    let ToolCall { name, arguments } = c;
    let input = match arguments {
        Some(m) => m,
        None => HashMap::new(),
    };
    ToolInvocation { name, input }
}

/// The tool invocations of a response, in the provider's order, each
/// reshaped into its caller-facing form; `NoToolCallsReturned`, carrying
/// the whole response, when it holds none.
pub fn tool_invocations(resp: ProviderResponse) -> (r: Result<Vec<ToolInvocation>, ProviderError>)
    ensures
        match resp.tool_calls {
            None => r matches Err(ProviderError::NoToolCallsReturned(e)) && e == resp,
            Some(calls) => r matches Ok(v) && v@.len() == calls@.len() && forall|i: int|
                0 <= i < calls@.len() ==> reshapes(#[trigger] calls@[i], v@[i]),
        },
{
    let ProviderResponse { response, tool_calls } = resp;
    let calls = match tool_calls {
        None => return Err(ProviderError::NoToolCallsReturned(ProviderResponse { response, tool_calls: None })),
        Some(calls) => calls,
    };
    let ghost given = calls@;
    let mut rest = calls;
    let mut out: Vec<ToolInvocation> = Vec::new();
    while rest.len() > 0
        invariant
            out@.len() + rest@.len() == given.len(),
            rest@ == given.subrange(out@.len() as int, given.len() as int),
            forall|i: int| 0 <= i < out@.len() ==> reshapes(#[trigger] given[i], out@[i]),
        decreases rest@.len(),
    {
        let c = rest.remove(0);
        out.push(reshape_call(c));
    }
    Ok(out)
}

} // verus!
