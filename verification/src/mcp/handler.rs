//! MCP tool handlers: which kind of MCP spec a declaration asks for, the
//! function specs offered to the model, and what an MCP call executes against.

use std::sync::Arc;

use vstd::prelude::*;

use crate::json::{
    first_index, json_str, json_str_member, member, member_set, parse_json, set_member, spec_parse_json,
    JsonValue,
};
use crate::mcp::pool::McpClientPool;
use crate::mcp::read_resource::{
    is_read_resource_spec, read_mcp_resource_spec, ReadResourceArgs, READ_MCP_RESOURCE_TOOL_NAME,
};
use crate::output::{FunctionToolCall, GatewayCallStatus, McpToolCall, OutputItem};
use crate::text::{cleaned, has_prefix, opt_text, strip_prefix};
use crate::tools::{
    FunctionTool, McpDiscoveredToolParam, McpTool, McpToolParam, ToolError, ToolOutput, ToolType,
};

verus! {

/// The shape of an MCP declaration: the resource reader, or a server tool.
#[derive(Debug, Clone, Copy, PartialEq, Eq, Structural)]
pub enum McpSpec {
    Resources,
    Tool,
}

/// The spec a declaration named `name` asks for.
pub open spec fn spec_of_name(name: Seq<char>) -> McpSpec {
    if name == READ_MCP_RESOURCE_TOOL_NAME@ {
        McpSpec::Resources
    } else {
        McpSpec::Tool
    }
}

impl McpSpec {
    /// `Resources` for the `read_mcp_resource` name, `Tool` for any other.
    pub fn from_param_name(name: &str) -> (r: Self)
        ensures
            r == spec_of_name(name@),
    {
        if crate::text::str_eq(name, READ_MCP_RESOURCE_TOOL_NAME) {
            McpSpec::Resources
        } else {
            McpSpec::Tool
        }
    }
}

/// Maps the model-facing MCP spec shape to the resource needed to execute
/// it: the pool of servers for reading resources, a server's client for
/// calling its tools. `None` marks a handler that only describes specs.
#[verifier::reject_recursive_types(C)]
pub enum McpHandlerKind<C> {
    ReadResource { spec: McpSpec, resource: Option<Arc<McpClientPool<C>>> },
    ToolCall { spec: McpSpec, client: Option<C> },
}

/// An MCP tool handler.
#[verifier::reject_recursive_types(C)]
pub struct McpHandler<C> {
    kind: McpHandlerKind<C>,
}

/// Builds MCP handlers.
#[derive(Debug, Default)]
pub struct McpHandlerFactory;

/// A tool discovered on an MCP server, with the handler that calls it.
#[verifier::reject_recursive_types(C)]
pub struct McpDiscoveredHandler<C> {
    pub param: McpDiscoveredToolParam,
    pub handler: Arc<McpHandler<C>>,
}

impl McpHandlerFactory {
    pub fn new() -> (r: Self) {
        McpHandlerFactory
    }

    /// The spec of resource-reading handlers.
    pub fn read_resource_spec(&self) -> (r: McpSpec)
        ensures
            r == McpSpec::Resources,
    {
        McpSpec::Resources
    }

    /// The spec of tool-calling handlers.
    pub fn tool_call_spec(&self) -> (r: McpSpec)
        ensures
            r == McpSpec::Tool,
    {
        McpSpec::Tool
    }

    /// A handler that reads resources from the servers of `resource`.
    pub fn read_resource<C>(&self, resource: Arc<McpClientPool<C>>) -> (h: McpHandler<C>)
        ensures
            h.kind() == (McpHandlerKind::ReadResource { spec: McpSpec::Resources, resource: Some(resource) }),
    {
        McpHandler::with_kind(
            McpHandlerKind::ReadResource { spec: self.read_resource_spec(), resource: Some(resource) },
        )
    }

    /// A handler that calls tools through `client`.
    pub fn tool_call<C>(&self, client: C) -> (h: McpHandler<C>)
        ensures
            h.kind() == (McpHandlerKind::ToolCall { spec: McpSpec::Tool, client: Some(client) }),
    {
        McpHandler::with_kind(McpHandlerKind::ToolCall { spec: self.tool_call_spec(), client: Some(client) })
    }

    /// The handler for an MCP declaration once its servers are connected: the
    /// resource reader over `pool`, or a tool caller through the client of
    /// the declaration's server (`None` when that server is not connected).
    pub fn handler_for<C: Clone>(&self, param: &McpToolParam, pool: Arc<McpClientPool<C>>) -> (r: Option<McpHandler<C>>)
        ensures
            spec_of_name(param@.name) == McpSpec::Resources ==> (r matches Some(h) && h.kind() == (McpHandlerKind::ReadResource {
                spec: McpSpec::Resources,
                resource: Some(pool),
            })),
            spec_of_name(param@.name) == McpSpec::Tool ==> match crate::text::cleaned(param@.server_label) {
                Some(l) if pool.clients().contains_key(l) => (r matches Some(h) && h.kind() matches McpHandlerKind::ToolCall {
                    spec: McpSpec::Tool,
                    client: Some(c),
                } && cloned(pool.clients()[l], c)),
                _ => r is None,
            },
    {
        match McpSpec::from_param_name(param.name.as_str()) {
            McpSpec::Resources => Some(self.read_resource(pool)),
            McpSpec::Tool => match pool.client_for_param(param) {
                Some(client) => Some(self.tool_call(client.clone())),
                None => None,
            },
        }
    }

    /// MCP tools are registered as `ToolType::Mcp`.
    pub fn tool_type(&self) -> (r: ToolType)
        ensures
            r == ToolType::Mcp,
    {
        ToolType::Mcp
    }

    /// Any MCP declaration is accepted.
    pub fn validate(&self) -> (r: Result<(), ToolError>)
        ensures
            r is Ok,
    {
        Ok(())
    }
}

impl<C> McpHandler<C> {
    /// What this handler executes against.
    pub closed spec fn kind(&self) -> McpHandlerKind<C> {
        self.kind
    }

    /// A handler of the given kind.
    pub fn with_kind(kind: McpHandlerKind<C>) -> (h: Self)
        ensures
            h.kind() == kind,
    {
        McpHandler { kind }
    }

    /// The spec this handler serves.
    pub fn spec(&self) -> (r: McpSpec)
        ensures
            r == match self.kind() {
                McpHandlerKind::ReadResource { spec, .. } => spec,
                McpHandlerKind::ToolCall { spec, .. } => spec,
            },
    {
        match &self.kind {
            McpHandlerKind::ReadResource { spec, .. } => *spec,
            McpHandlerKind::ToolCall { spec, .. } => *spec,
        }
    }

    /// A resource-reader handler that only describes its spec.
    pub fn read_resource_spec_only() -> (h: Self)
        ensures
            h.kind() == (McpHandlerKind::<C>::ReadResource { spec: McpSpec::Resources, resource: None }),
    {
        Self::with_kind(McpHandlerKind::ReadResource { spec: McpSpec::Resources, resource: None })
    }

    /// A resource-reader handler over the servers of `pool`.
    pub fn read_resource(pool: Arc<McpClientPool<C>>) -> (h: Self)
        ensures
            h.kind() == (McpHandlerKind::ReadResource { spec: McpSpec::Resources, resource: Some(pool) }),
    {
        Self::with_kind(McpHandlerKind::ReadResource { spec: McpSpec::Resources, resource: Some(pool) })
    }

    /// A tool-call handler that only describes its spec.
    pub fn discovered_tool_spec_only() -> (h: Self)
        ensures
            h.kind() == (McpHandlerKind::<C>::ToolCall { spec: McpSpec::Tool, client: None }),
    {
        Self::with_kind(McpHandlerKind::ToolCall { spec: McpSpec::Tool, client: None })
    }

    /// A tool-call handler through `client`.
    pub fn tool_call(client: C) -> (h: Self)
        ensures
            h.kind() == (McpHandlerKind::ToolCall { spec: McpSpec::Tool, client: Some(client) }),
    {
        Self::with_kind(McpHandlerKind::ToolCall { spec: McpSpec::Tool, client: Some(client) })
    }

    /// The spec-only handler for a tool entry's declaration: the resource
    /// reader when the entry decodes as an MCP declaration named
    /// `read_mcp_resource`, a tool caller otherwise.
    pub fn spec_from_param(declared: Option<&McpToolParam>) -> (h: Self)
        ensures
            match declared {
                Some(p) if spec_of_name(p@.name) == McpSpec::Resources => h.kind() == (McpHandlerKind::<
                    C,
                >::ReadResource { spec: McpSpec::Resources, resource: None }),
                _ => h.kind() == (McpHandlerKind::<C>::ToolCall { spec: McpSpec::Tool, client: None }),
            },
    {
        let spec = match declared {
            Some(p) => McpSpec::from_param_name(p.name.as_str()),
            None => McpSpec::Tool,
        };
        match spec {
            McpSpec::Resources => Self::read_resource_spec_only(),
            McpSpec::Tool => Self::discovered_tool_spec_only(),
        }
    }

    /// Any MCP declaration is accepted.
    pub fn validate(&self) -> (r: Result<(), ToolError>)
        ensures
            r is Ok,
    {
        Ok(())
    }
}


/// The input schema offered for an MCP tool: its own schema, with the
/// `properties` member set to an empty object when the schema has none or a
/// null one.
pub open spec fn offered_schema(schema: Seq<(String, JsonValue)>, offered: Seq<(String, JsonValue)>) -> bool {
    match member(schema, "properties"@) {
        Some(p) if !(p is Null) => offered == schema,
        _ => {
            let v = offered[first_index(schema, "properties"@)].1;
            &&& v matches JsonValue::Object(es) && es@.len() == 0
            &&& member_set(schema, "properties"@, v, offered)
        },
    }
}

/// `t` is the function spec offering the MCP tool `tool` under `name`.
pub open spec fn offers_tool(t: FunctionTool, name: Seq<char>, tool: McpTool) -> bool {
    &&& t.type_@ == "function"@
    &&& t.name@ == name
    &&& t.description == tool.description
    &&& t.parameters matches Some(JsonValue::Object(es)) && offered_schema(tool.input_schema@, es@)
    &&& t.strict == Some(false)
}

/// The function spec that offers the MCP tool `tool` to the model as `name`.
pub fn mcp_tool_to_function_tool(name: &str, tool: McpTool) -> (t: FunctionTool)
    ensures
        offers_tool(t, name@, tool),
{
    let McpTool { name: _, description, input_schema } = tool;
    let needs_properties = match crate::json::find_member(&input_schema, "properties") {
        None => true,
        Some(p) => p.is_null(),
    };
    let parameters = if needs_properties {
        proof {
            reveal_strlit("properties");
        }
        set_member(input_schema, "properties", JsonValue::Object(Vec::new()))
    } else {
        input_schema
    };
    FunctionTool {
        type_: "function".to_owned(),
        name: name.to_owned(),
        description,
        parameters: Some(JsonValue::Object(parameters)),
        strict: Some(false),
    }
}

/// What an MCP handler executes against: the pool of servers, or a client.
#[verifier::reject_recursive_types(C)]
pub enum McpTarget<'a, C> {
    Resources(&'a McpClientPool<C>),
    Client(&'a C),
}

impl<C> McpHandler<C> {
    /// The function specs this handler offers for a tool entry: the
    /// `read_mcp_resource` spec for a resource reader; for a tool caller, the
    /// spec of the discovered tool the entry decodes to (nothing when it does
    /// not decode); nothing when kind and spec do not pair up.
    pub fn normalize(&self, discovered: Option<McpDiscoveredToolParam>) -> (r: Vec<FunctionTool>)
        ensures
            match self.kind() {
                McpHandlerKind::ReadResource { spec: McpSpec::Resources, .. } => r@.len() == 1
                    && is_read_resource_spec(r@[0]),
                McpHandlerKind::ToolCall { spec: McpSpec::Tool, .. } => match discovered {
                    Some(d) => r@.len() == 1 && offers_tool(r@[0], d.exposed_name@, d.tool),
                    None => r@.len() == 0,
                },
                _ => r@.len() == 0,
            },
    {
        let mut out: Vec<FunctionTool> = Vec::new();
        match &self.kind {
            McpHandlerKind::ReadResource { spec: McpSpec::Resources, .. } => {
                out.push(read_mcp_resource_spec());
            },
            McpHandlerKind::ToolCall { spec: McpSpec::Tool, .. } => {
                if let Some(d) = discovered {
                    let McpDiscoveredToolParam { exposed_name, tool, .. } = d;
                    out.push(mcp_tool_to_function_tool(exposed_name.as_str(), tool));
                }
            },
            _ => {},
        }
        out
    }

    /// What a call through this handler runs against, or the configuration
    /// error of a handler that only describes its spec.
    pub fn execution_target(&self) -> (r: Result<McpTarget<'_, C>, ToolError>)
        ensures
            match self.kind() {
                McpHandlerKind::ReadResource { resource: Some(p), .. } => r matches Ok(
                    McpTarget::Resources(q),
                ) && *q == *p,
                McpHandlerKind::ReadResource { resource: None, .. } => r matches Err(ToolError::Config(m))
                    && m@ == "read_mcp_resource spec-only handler cannot execute tools"@,
                McpHandlerKind::ToolCall { client: Some(c), .. } => r matches Ok(McpTarget::Client(d))
                    && *d == c,
                McpHandlerKind::ToolCall { client: None, .. } => r matches Err(ToolError::Config(m)) && m@
                    == "MCP tool spec-only handler cannot execute tools"@,
            },
    {
        match &self.kind {
            McpHandlerKind::ReadResource { resource, .. } => match resource {
                Some(pool) => Ok(McpTarget::Resources(&**pool)),
                None => Err(
                    ToolError::Config("read_mcp_resource spec-only handler cannot execute tools".to_owned()),
                ),
            },
            McpHandlerKind::ToolCall { client, .. } => match client {
                Some(c) => Ok(McpTarget::Client(c)),
                None => Err(ToolError::Config("MCP tool spec-only handler cannot execute tools".to_owned())),
            },
        }
    }
}

/// The client that a `read_mcp_resource` call for `server` reads through, or
/// why there is none.
pub open spec fn read_target<C>(pool: McpClientPool<C>, server: Seq<char>) -> Result<C, Seq<char>> {
    if pool.clients().contains_key(server) {
        Ok(pool.clients()[server])
    } else if pool.errors().contains_key(server) {
        Err("MCP server '"@ + server + "' failed to connect: "@ + pool.errors()[server])
    } else {
        Err("unknown MCP server: "@ + server)
    }
}

/// The client of `pool` for the server a `read_mcp_resource` call names.
pub fn read_resource_client<'a, C>(pool: &'a McpClientPool<C>, server: &str) -> (r: Result<&'a C, ToolError>)
    ensures
        match read_target(*pool, server@) {
            Ok(c) => r matches Ok(d) && *d == c,
            Err(m) => r matches Err(ToolError::Execution(e)) && e@ == m,
        },
{
    match pool.get(server) {
        Some(c) => Ok(c),
        None => match pool.connection_error(server) {
            Some(error) => Err(
                ToolError::Execution(
                    "MCP server '".to_owned().concat(server).concat("' failed to connect: ").concat(error),
                ),
            ),
            None => Err(ToolError::Execution("unknown MCP server: ".to_owned().concat(server))),
        },
    }
}

/// The handlers for the tools one server lists: each is exposed to the model
/// as `<server_label>__<tool name>` and called through the server's client.
pub fn discovered_tool_handlers_for<C: Clone>(
    factory: &McpHandlerFactory,
    server_label: &str,
    client: &C,
    tools: Vec<McpTool>,
) -> (r: Vec<McpDiscoveredHandler<C>>)
    ensures
        r@.len() == tools@.len(),
        forall|i: int|
            0 <= i < r@.len() ==> {
                let d = #[trigger] r@[i];
                &&& d.param.server_label@ == server_label@
                &&& d.param.tool_name@ == tools@[i].name@
                &&& d.param.exposed_name@ == server_label@ + "__"@ + tools@[i].name@
                &&& d.param.tool == tools@[i]
                &&& d.handler.kind() matches McpHandlerKind::ToolCall { spec: McpSpec::Tool, client: Some(c) }
                    && cloned(*client, c)
            },
{
    let mut out: Vec<McpDiscoveredHandler<C>> = Vec::new();
    for tool in it: tools.into_iter()
        invariant
            it.seq() == tools@,
            out@.len() == it.index(),
            forall|i: int|
                0 <= i < out@.len() ==> {
                    let d = #[trigger] out@[i];
                    &&& d.param.server_label@ == server_label@
                    &&& d.param.tool_name@ == tools@[i].name@
                    &&& d.param.exposed_name@ == server_label@ + "__"@ + tools@[i].name@
                    &&& d.param.tool == tools@[i]
                    &&& d.handler.kind() matches McpHandlerKind::ToolCall {
                        spec: McpSpec::Tool,
                        client: Some(c),
                    } && cloned(*client, c)
                },
    {
        let tool_name = tool.name.clone();
        let exposed_name = server_label.to_owned().concat("__").concat(tool_name.as_str());
        let handler = Arc::new(factory.tool_call(client.clone()));
        out.push(
            McpDiscoveredHandler {
                param: McpDiscoveredToolParam {
                    server_label: server_label.to_owned(),
                    tool_name,
                    exposed_name,
                    tool,
                },
                handler,
            },
        );
    }
    out
}

/// The JSON arguments of a call: its argument text parsed, or an empty
/// object when the text is not JSON.
pub open spec fn arguments_of(text: Seq<char>, v: JsonValue) -> bool {
    match spec_parse_json(text) {
        Some(p) => v == p,
        None => v matches JsonValue::Object(es) && es@.len() == 0,
    }
}

/// The call's arguments as JSON (see `arguments_of`).
pub fn arguments_value(arguments: &str) -> (v: JsonValue)
    ensures
        arguments_of(arguments@, v),
{
    match parse_json(arguments) {
        Some(v) => v,
        None => JsonValue::Object(Vec::new()),
    }
}

/// The trimmed, non-blank `server` member of a call's arguments.
pub fn server_from_arguments(arguments: &JsonValue) -> (r: Option<String>)
    ensures
        opt_text(r) == cleaned(json_str_member(*arguments, "server"@)),
{
    match arguments.get("server") {
        Some(v) => crate::text::clean_string(v.as_str()),
        None => None,
    }
}

/// The trimmed, non-blank `error` member of a tool's JSON output.
pub fn error_from_output(output: &JsonValue) -> (r: Option<String>)
    ensures
        opt_text(r) == cleaned(json_str_member(*output, "error"@)),
{
    match output.get("error") {
        Some(v) => crate::text::clean_string(v.as_str()),
        None => None,
    }
}

/// The output id that a call's own ids determine: `mcp_` and the suffix of
/// an `fc_` id, else of a `call_` call id (suffixes must not be empty).
pub open spec fn output_id_of(id: Seq<char>, call_id: Seq<char>) -> Option<Seq<char>> {
    if has_prefix(id, "fc_"@) && id.len() > "fc_"@.len() {
        Some("mcp_"@ + id.skip("fc_"@.len() as int))
    } else if has_prefix(call_id, "call_"@) && call_id.len() > "call_"@.len() {
        Some("mcp_"@ + call_id.skip("call_"@.len() as int))
    } else {
        None
    }
}

/// Every output id the call's ids determine starts with `mcp_`.
pub proof fn lemma_output_id_prefix(id: Seq<char>, call_id: Seq<char>)
    ensures
        output_id_of(id, call_id) matches Some(x) ==> has_prefix(x, "mcp_"@),
{
    if let Some(x) = output_id_of(id, call_id) {
        reveal_strlit("mcp_");
        let rest = if has_prefix(id, "fc_"@) && id.len() > "fc_"@.len() {
            id.skip("fc_"@.len() as int)
        } else {
            call_id.skip("call_"@.len() as int)
        };
        assert(x == "mcp_"@ + rest);
        assert(x.subrange(0, 4) =~= "mcp_"@);
    }
}

/// Whether `c` is a lowercase hexadecimal digit.
pub open spec fn is_lower_hex(c: char) -> bool {
    ('0' <= c && c <= '9') || ('a' <= c && c <= 'f')
}

/// The text of a UUID in hyphenated form: 36 characters, lowercase hex
/// digits with hyphens at 8, 13, 18 and 23.
pub open spec fn is_uuid_text(s: Seq<char>) -> bool {
    &&& s.len() == 36
    &&& forall|i: int|
        0 <= i < 36 ==> if i == 8 || i == 13 || i == 18 || i == 23 {
            #[trigger] s[i] == '-'
        } else {
            is_lower_hex(s[i])
        }
}

/// The text of a fresh time-ordered UUID, `uuid::Uuid::now_v7()` written
/// with `to_string`. Which UUID comes out depends on the clock and on chance;
/// trusted: every outcome is written in the hyphenated lowercase form.
#[verifier::external_body]
fn uuid7_text() -> (r: String)
    ensures
        is_uuid_text(r@),
{
    uuid::Uuid::now_v7().to_string()
}

/// The id of the MCP output item for a call, given `fresh` text for a call
/// whose ids determine none: `output_id_of` when they do, else `mcp_`
/// followed by `fresh`.
pub fn output_id_with(call: &FunctionToolCall, fresh: &str) -> (r: String)
    ensures
        r@ == match output_id_of(call.id@, call.call_id@) {
            Some(x) => x,
            None => "mcp_"@ + fresh@,
        },
{
    proof {
        reveal_strlit("fc_");
        reveal_strlit("call_");
        reveal_strlit("mcp_");
    }
    if let Some(suffix) = strip_prefix(call.id.as_str(), "fc_") {
        if !suffix.as_str().is_empty() {
            return "mcp_".to_owned().concat(suffix.as_str());
        }
    }
    if let Some(suffix) = strip_prefix(call.call_id.as_str(), "call_") {
        if !suffix.as_str().is_empty() {
            return "mcp_".to_owned().concat(suffix.as_str());
        }
    }
    "mcp_".to_owned().concat(fresh)
}

/// The id of the MCP output item for a call (see `output_id_of`); when the
/// call's ids determine none, `mcp_` followed by the text of a fresh UUID.
pub fn call_output_id(call: &FunctionToolCall) -> (r: String)
    ensures
        match output_id_of(call.id@, call.call_id@) {
            Some(x) => r@ == x,
            None => exists|u: Seq<char>| is_uuid_text(u) && r@ == "mcp_"@ + u,
        },
{
    let fresh = uuid7_text();
    let r = output_id_with(call, fresh.as_str());
    proof {
        if output_id_of(call.id@, call.call_id@) is None {
            assert(is_uuid_text(fresh@) && r@ == "mcp_"@ + fresh@);
        }
    }
    r
}

/// The server a call's arguments name, or empty text.
pub open spec fn server_of(args: JsonValue) -> Seq<char> {
    match cleaned(json_str_member(args, "server"@)) {
        Some(s) => s,
        None => Seq::empty(),
    }
}

/// The error text reported for a failed call: the `error` member of the
/// output when it is JSON with one, else the output itself.
pub open spec fn failure_text(output: Seq<char>) -> Seq<char> {
    match spec_parse_json(output) {
        Some(v) => match cleaned(json_str_member(v, "error"@)) {
            Some(e) => e,
            None => output,
        },
        None => output,
    }
}

/// The result reported for a completed call: its output parsed as JSON, or
/// the output as a JSON string when it is not JSON.
pub open spec fn completed_result(output: Seq<char>, r: JsonValue) -> bool {
    match spec_parse_json(output) {
        Some(v) => r == v,
        None => json_str(r) == Some(output),
    }
}

/// `c` reports `call` with status `status`: id, server, tool name and
/// arguments taken from the call.
pub open spec fn reports_call(c: McpToolCall, call: FunctionToolCall, status: GatewayCallStatus) -> bool {
    &&& match output_id_of(call.id@, call.call_id@) {
        Some(x) => c.id@ == x,
        None => exists|u: Seq<char>| is_uuid_text(u) && c.id@ == "mcp_"@ + u,
    }
    &&& arguments_of(call.arguments@, c.arguments)
    &&& c.server@ == server_of(c.arguments)
    &&& c.tool@ == call.name@
    &&& c.status == status
}

/// The MCP output item for a call that finished with `status`: a failed call
/// carries the failure text as its error, a completed one its result.
pub fn output_item(call: &FunctionToolCall, output: &ToolOutput, status: GatewayCallStatus) -> (r: OutputItem)
    ensures
        r matches OutputItem::McpToolCall(c) && reports_call(c, *call, status) && (if status
            == GatewayCallStatus::Failed {
            c.error matches Some(e) && e@ == failure_text(output.output@)
        } else {
            c.error is None
        }) && (if status == GatewayCallStatus::Completed {
            c.result matches Some(v) && completed_result(output.output@, v)
        } else {
            c.result is None
        }),
{
    let arguments = arguments_value(call.arguments.as_str());
    let server = match server_from_arguments(&arguments) {
        Some(s) => s,
        None => String::new(),
    };
    let parsed_output = parse_json(output.output.as_str());
    let error = if status == GatewayCallStatus::Failed {
        let from_output = match &parsed_output {
            Some(v) => error_from_output(v),
            None => None,
        };
        match from_output {
            Some(e) => Some(e),
            None => Some(output.output.clone()),
        }
    } else {
        None
    };
    let result = if status == GatewayCallStatus::Completed {
        match parsed_output {
            Some(v) => Some(v),
            None => Some(JsonValue::String(output.output.clone())),
        }
    } else {
        None
    };
    OutputItem::McpToolCall(
        McpToolCall::new(call_output_id(call), server, call.name.clone(), arguments, status, result, error),
    )
}

/// The MCP output item shown while a call is running.
pub fn started_output_item(call: &FunctionToolCall) -> (r: OutputItem)
    ensures
        r matches OutputItem::McpToolCall(c) && reports_call(c, *call, GatewayCallStatus::InProgress)
            && c.result is None && c.error is None,
{
    let arguments = arguments_value(call.arguments.as_str());
    let server = match server_from_arguments(&arguments) {
        Some(s) => s,
        None => String::new(),
    };
    OutputItem::McpToolCall(
        McpToolCall::new(
            call_output_id(call),
            server,
            call.name.clone(),
            arguments,
            GatewayCallStatus::InProgress,
            None,
            None,
        ),
    )
}

/// The client and resource URI of a `read_mcp_resource` call, given how its
/// argument text decoded (the decoding error's text when it did not).
pub fn read_resource_request<'a, C>(pool: &'a McpClientPool<C>, args: Result<ReadResourceArgs, String>) -> (r: Result<
    (&'a C, String),
    ToolError,
>)
    ensures
        match args {
            Err(e) => r matches Err(ToolError::Execution(m)) && m@ == "invalid read_mcp_resource arguments: "@
                + e@,
            Ok(a) => match read_target(*pool, a.server@) {
                Ok(c) => r matches Ok((d, u)) && *d == c && u@ == a.uri@,
                Err(m) => r matches Err(ToolError::Execution(x)) && x@ == m,
            },
        },
{
    match args {
        Err(e) => Err(ToolError::Execution("invalid read_mcp_resource arguments: ".to_owned().concat(e.as_str()))),
        Ok(a) => {
            let client = read_resource_client(pool, a.server.as_str())?;
            Ok((client, a.uri))
        },
    }
}

/// The tool configuration of an MCP tool call, given how the entry's
/// configuration decoded (the decoding error's text when it did not).
pub fn tool_call_config(decoded: Result<McpDiscoveredToolParam, String>) -> (r: Result<McpDiscoveredToolParam, ToolError>)
    ensures
        match decoded {
            Ok(p) => r == Ok::<McpDiscoveredToolParam, ToolError>(p),
            Err(e) => r matches Err(ToolError::Config(m)) && m@ == "invalid MCP tool config: "@ + e@,
        },
{
    match decoded {
        Ok(p) => Ok(p),
        Err(e) => Err(ToolError::Config("invalid MCP tool config: ".to_owned().concat(e.as_str()))),
    }
}

/// How an awaited MCP call ended: the call failed (with its error's text),
/// its result could not be written as JSON (with that error's text), or its
/// result written as JSON text.
#[derive(Debug)]
pub enum McpCallResult {
    Failed(String),
    Unserializable(String),
    Completed(String),
}

/// `r` is what a call with id `call_id` gives back for how it ended: the
/// JSON text as its output, or an execution error whose text starts with
/// `failed` for a failed call, or tells which `operation`'s result could not
/// be written.
pub open spec fn call_output_is(
    call_id: Seq<char>,
    failed: Seq<char>,
    operation: Seq<char>,
    result: McpCallResult,
    r: Result<ToolOutput, ToolError>,
) -> bool {
    match result {
        McpCallResult::Failed(e) => r matches Err(ToolError::Execution(m)) && m@ == failed + e@,
        McpCallResult::Unserializable(e) => r matches Err(ToolError::Execution(m)) && m@ == "failed to serialize "@
            + operation + " result: "@ + e@,
        McpCallResult::Completed(t) => r matches Ok(o) && o.call_id@ == call_id && o.output == t,
    }
}

/// What a `read_mcp_resource` call gives back (see `call_output_is`).
pub fn read_resource_output(call_id: &str, result: McpCallResult) -> (r: Result<ToolOutput, ToolError>)
    ensures
        call_output_is(call_id@, "resources/read failed: "@, "resources/read"@, result, r),
{
    match result {
        McpCallResult::Failed(e) => Err(ToolError::Execution("resources/read failed: ".to_owned().concat(e.as_str()))),
        McpCallResult::Unserializable(e) => Err(
            ToolError::Execution(
                "failed to serialize ".to_owned().concat("resources/read").concat(" result: ").concat(e.as_str()),
            ),
        ),
        McpCallResult::Completed(t) => Ok(ToolOutput { call_id: call_id.to_owned(), output: t }),
    }
}

/// What an MCP tool call through the server `server_label` gives back (see
/// `call_output_is`).
pub fn tool_call_output(call_id: &str, server_label: &str, result: McpCallResult) -> (r: Result<ToolOutput, ToolError>)
    ensures
        call_output_is(
            call_id@,
            "tools/call failed for MCP server '"@ + server_label@ + "': "@,
            "tools/call"@,
            result,
            r,
        ),
{
    match result {
        McpCallResult::Failed(e) => Err(
            ToolError::Execution(
                "tools/call failed for MCP server '".to_owned().concat(server_label).concat("': ").concat(e.as_str()),
            ),
        ),
        McpCallResult::Unserializable(e) => Err(
            ToolError::Execution(
                "failed to serialize ".to_owned().concat("tools/call").concat(" result: ").concat(e.as_str()),
            ),
        ),
        McpCallResult::Completed(t) => Ok(ToolOutput { call_id: call_id.to_owned(), output: t }),
    }
}

} // verus!
