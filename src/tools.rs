//! Tool descriptions as callers give them, and their translation into the
//! provider's function format.
use vstd::prelude::*;

use std::collections::HashMap;

verus! {

/// The input description of a tool: a JSON-schema-like object.
#[derive(Debug)]
pub struct InputSchema {
    pub data_type: String,
    pub properties: HashMap<String, serde_json::Value>,
    pub required: Vec<String>,
}

/// A callable tool offered to the model.
#[derive(Debug)]
pub struct Tool {
    pub name: Option<String>,
    pub description: Option<String>,
    pub input_schema: InputSchema,
    /// The kind of tool; `"function"` unless given.
    pub kind: String,
}

/// The parameters of a function in the provider's format.
#[derive(Debug)]
pub struct FunctionParameters {
    pub param_type: String,
    pub properties: HashMap<String, serde_json::Value>,
    pub required: Vec<String>,
}

/// A tool in the provider's function format.
#[derive(Debug)]
pub struct ToolFunction {
    pub name: String,
    pub description: String,
    pub parameters: FunctionParameters,
}

/// The kind given to a tool whose kind is not stated.
pub fn default_type() -> (r: String)
    ensures
        r@ == "function"@,
{
    String::from_str("function")
}

/// The text of an optional string, or the empty text when absent.
pub open spec fn text_or_empty(o: Option<String>) -> Seq<char> {
    match o {
        Some(s) => s@,
        None => Seq::<char>::empty(),
    }
}

/// `f` is the provider-format form of `t`: absent name and description
/// become empty, the schema's parts are carried over as they are.
pub open spec fn translates(t: Tool, f: ToolFunction) -> bool {
    &&& f.name@ == text_or_empty(t.name)
    &&& f.description@ == text_or_empty(t.description)
    &&& f.parameters.param_type == t.input_schema.data_type
    &&& f.parameters.properties == t.input_schema.properties
    &&& f.parameters.required == t.input_schema.required
}

fn or_empty(o: Option<String>) -> (r: String)
    ensures
        r@ == text_or_empty(o),
{
    match o {
        Some(s) => s,
        None => String::new(),
    }
}

/// Converts one tool into the provider's function format.
pub fn translate_tool(t: Tool) -> (f: ToolFunction)
    ensures
        translates(t, f),
{
    let Tool { name, description, input_schema, kind: _ } = t;
    let InputSchema { data_type, properties, required } = input_schema;
    ToolFunction {
        name: or_empty(name),
        description: or_empty(description),
        parameters: FunctionParameters { param_type: data_type, properties, required },
    }
}

/// Converts each tool into the provider's function format, keeping the
/// order: one function for each tool.
pub fn translate_tools(tools: Vec<Tool>) -> (r: Vec<ToolFunction>)
    ensures
        r@.len() == tools@.len(),
        forall|i: int| 0 <= i < tools@.len() ==> translates(#[trigger] tools@[i], r@[i]),
{
    let ghost given = tools@;
    let mut rest = tools;
    let mut r: Vec<ToolFunction> = Vec::new();
    while rest.len() > 0
        invariant
            r@.len() + rest@.len() == given.len(),
            rest@ == given.subrange(r@.len() as int, given.len() as int),
            forall|i: int| 0 <= i < r@.len() ==> translates(#[trigger] given[i], r@[i]),
        decreases rest@.len(),
    {
        let t = rest.remove(0);
        r.push(translate_tool(t));
    }
    r
}

} // verus!
