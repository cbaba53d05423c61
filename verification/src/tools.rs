//! Tool declarations of a request (function and MCP tools), the function-tool
//! specs sent upstream, and the entries of the gateway's tool registry.

use vstd::prelude::*;

use crate::json::JsonValue;

verus! {

/// A tool name that is known not to be empty.
#[derive(Debug, Clone)]
pub struct NonEmptyToolName {
    name: String,
}

impl View for NonEmptyToolName {
    type V = Seq<char>;

    closed spec fn view(&self) -> Seq<char> {
        self.name@
    }
}

impl NonEmptyToolName {
    /// The name `name`, unless it is empty.
    pub fn new(name: &str) -> (r: Option<Self>)
        ensures
            r is Some <==> name@.len() > 0,
            r matches Some(n) ==> n@ == name@,
    {
        if name.is_empty() {
            None
        } else {
            Some(NonEmptyToolName { name: name.to_owned() })
        }
    }

    /// The name as text.
    pub fn as_str(&self) -> (r: &str)
        ensures
            r@ == self@,
    {
        self.name.as_str()
    }

    /// A second copy of the name.
    pub fn duplicate(&self) -> (r: Self)
        ensures
            r@ == self@,
    {
        NonEmptyToolName { name: self.name.clone() }
    }
}

/// HTTP headers as name/value pairs.
pub type Headers = Vec<(String, String)>;

/// The view of a header list.
pub open spec fn headers_view(h: Option<Headers>) -> Option<Seq<(Seq<char>, Seq<char>)>> {
    match h {
        Some(v) => Some(v@.map_values(|p: (String, String)| (p.0@, p.1@))),
        None => None,
    }
}

/// A second copy of a header list.
pub fn copy_headers(h: &Option<Headers>) -> (r: Option<Headers>)
    ensures
        headers_view(r) == headers_view(*h),
{
    match h {
        None => None,
        Some(v) => {
            let mut out: Headers = Vec::new();
            for i in 0..v.len()
                invariant
                    out@.len() == i,
                    forall|j: int|
                        0 <= j < i ==> (#[trigger] out@[j]).0@ == v@[j].0@ && out@[j].1@ == v@[j].1@,
            {
                out.push((v[i].0.clone(), v[i].1.clone()));
            }
            proof {
                assert(out@.map_values(|p: (String, String)| (p.0@, p.1@)) =~= v@.map_values(
                    |p: (String, String)| (p.0@, p.1@),
                ));
            }
            Some(out)
        },
    }
}

/// An `mcp` tool declared in a request.
#[derive(Debug, Clone)]
pub struct McpToolParam {
    pub name: NonEmptyToolName,
    pub server_label: Option<String>,
    pub server_url: Option<String>,
    pub headers: Option<Headers>,
}

/// What an `mcp` tool declaration says, as plain text.
pub struct McpToolParamView {
    pub name: Seq<char>,
    pub server_label: Option<Seq<char>>,
    pub server_url: Option<Seq<char>>,
    pub headers: Option<Seq<(Seq<char>, Seq<char>)>>,
}

impl View for McpToolParam {
    type V = McpToolParamView;

    open spec fn view(&self) -> McpToolParamView {
        McpToolParamView {
            name: self.name@,
            server_label: crate::text::opt_text(self.server_label),
            server_url: crate::text::opt_text(self.server_url),
            headers: headers_view(self.headers),
        }
    }
}

/// A function tool declared in a request; `extra` holds its other members.
#[derive(Debug)]
pub struct FunctionToolParam {
    pub name: NonEmptyToolName,
    pub description: Option<String>,
    pub parameters: Option<JsonValue>,
    pub strict: Option<bool>,
    pub extra: Vec<(String, JsonValue)>,
}

/// A function tool in the wire format the upstream model server understands.
#[derive(Debug)]
pub struct FunctionTool {
    pub type_: String,
    pub name: String,
    pub description: Option<String>,
    pub parameters: Option<JsonValue>,
    pub strict: Option<bool>,
}

/// A tool that an MCP server lists: its name, description and input schema.
#[derive(Debug)]
pub struct McpTool {
    pub name: String,
    pub description: Option<String>,
    pub input_schema: Vec<(String, JsonValue)>,
}

/// A tool discovered on an MCP server, exposed to the model under
/// `exposed_name`.
#[derive(Debug)]
pub struct McpDiscoveredToolParam {
    pub server_label: String,
    pub tool_name: String,
    pub exposed_name: String,
    pub tool: McpTool,
}

/// The kind of a registered tool.
#[derive(Debug, Clone, Copy, PartialEq, Eq, Structural)]
pub enum ToolType {
    Function,
    Mcp,
    WebSearch,
    FileSearch,
    CodeInterpreter,
    Custom,
}

/// A registry entry: how a tool the model may call is executed.
pub struct ToolEntry<H> {
    pub tool_type: ToolType,
    pub config: JsonValue,
    pub server_label: Option<String>,
    pub handler: Option<H>,
}

/// Why a tool could not be executed.
#[derive(Debug, Clone)]
pub enum ToolError {
    /// The tool's configuration does not allow execution.
    Config(String),
    /// The execution itself failed.
    Execution(String),
}

/// What a tool execution returned for a call.
#[derive(Debug, Clone)]
pub struct ToolOutput {
    pub call_id: String,
    pub output: String,
}

} // verus!
