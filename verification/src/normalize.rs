//! Normalization of a request's tool declarations to the function-tool wire
//! format that the upstream model server understands.

use vstd::prelude::*;

use crate::input::{FunctionToolResultMessage, FunctionToolResultOutput};
use crate::json::{copy_opt_json, same_json, JsonValue};
use crate::mcp::handler::{spec_of_name, McpHandler, McpSpec};
use crate::mcp::read_resource::is_read_resource_spec;
use crate::text::opt_text;
use crate::tools::{FunctionTool, FunctionToolParam, McpToolParam, ToolOutput};

verus! {

/// A custom (freeform) tool declaration.
#[derive(Debug, Clone)]
pub struct CustomToolParam {
    pub name: String,
}

/// A tool declared in a Responses request.
#[derive(Debug)]
pub enum ResponsesTool {
    Function(FunctionToolParam),
    Mcp(McpToolParam),
    FileSearch,
    CodeInterpreter,
    Custom(CustomToolParam),
    Unknown,
}

/// `t` is the function tool for the declaration `p`: same name, description,
/// parameters and strictness.
pub open spec fn function_tool_of(t: FunctionTool, p: FunctionToolParam) -> bool {
    &&& t.type_@ == "function"@
    &&& t.name@ == p.name@
    &&& opt_text(t.description) == opt_text(p.description)
    &&& match (t.parameters, p.parameters) {
        (Some(a), Some(b)) => same_json(b, a),
        (None, None) => true,
        _ => false,
    }
    &&& t.strict == p.strict
}

impl FunctionTool {
    /// The function tool for a function declaration.
    pub fn from_param(p: &FunctionToolParam) -> (t: Self)
        ensures
            function_tool_of(t, *p),
    {
        let description = match &p.description {
            Some(d) => Some(d.clone()),
            None => None,
        };
        FunctionTool {
            type_: "function".to_owned(),
            name: p.name.as_str().to_owned(),
            description,
            parameters: copy_opt_json(&p.parameters),
            strict: p.strict,
        }
    }
}

impl ResponsesTool {
    /// Normalises function-like tool declarations to function tools: a
    /// function converts to its function tool; an MCP declaration of the
    /// resource reader gives the `read_mcp_resource` spec and any other MCP
    /// declaration nothing (its tools are discovered on the server); custom
    /// tools are forwarded natively and the other kinds have no handler, so
    /// they give nothing.
    pub fn to_function_tools(&self) -> (r: Vec<FunctionTool>)
        ensures
            match *self {
                ResponsesTool::Function(p) => r@.len() == 1 && function_tool_of(r@[0], p),
                ResponsesTool::Mcp(p) => if spec_of_name(p@.name) == McpSpec::Resources {
                    r@.len() == 1 && is_read_resource_spec(r@[0])
                } else {
                    r@.len() == 0
                },
                _ => r@.len() == 0,
            },
    {
        match self {
            ResponsesTool::Function(p) => {
                let mut out: Vec<FunctionTool> = Vec::new();
                out.push(FunctionTool::from_param(p));
                out
            },
            ResponsesTool::Mcp(p) => McpHandler::<()>::spec_from_param(Some(p)).normalize(None),
            _ => Vec::new(),
        }
    }
}

impl From<ToolOutput> for FunctionToolResultMessage {
    /// The function result message for what a tool execution returned.
    fn from(o: ToolOutput) -> (r: Self) {
        FunctionToolResultMessage { call_id: o.call_id, output: FunctionToolResultOutput::Text(o.output) }
    }
}

impl vstd::std_specs::convert::FromSpecImpl<ToolOutput> for FunctionToolResultMessage {
    open spec fn obeys_from_spec() -> bool {
        true
    }

    open spec fn from_spec(o: ToolOutput) -> Self {
        FunctionToolResultMessage { call_id: o.call_id, output: FunctionToolResultOutput::Text(o.output) }
    }
}

} // verus!
