//! Registration of request-declared MCP tools in the gateway's tool registry.

use vstd::hash_map::StringHashMap;
use vstd::prelude::*;

use crate::json::JsonValue;
use crate::mcp::handler::{spec_of_name, McpSpec};
use crate::mcp::read_resource::READ_MCP_RESOURCE_TOOL_NAME;
use crate::tools::{McpToolParam, ToolEntry, ToolType};

verus! {

/// The gateway's tool registry: each tool's entry under the name the model
/// calls it by.
pub type ToolEntries<H> = StringHashMap<ToolEntry<H>>;

/// The registry after registering the MCP declaration `param` (whose
/// serialized form is `config`) with `handler`: the resource reader under
/// `read_mcp_resource`, a declared tool under its own name with its server
/// label; a tool of the same name is replaced.
pub open spec fn registered<H>(
    entries: Map<Seq<char>, ToolEntry<H>>,
    param: McpToolParam,
    config: JsonValue,
    handler: H,
) -> Map<Seq<char>, ToolEntry<H>> {
    match spec_of_name(param@.name) {
        McpSpec::Resources => entries.insert(
            READ_MCP_RESOURCE_TOOL_NAME@,
            ToolEntry { tool_type: ToolType::Mcp, config, server_label: None, handler: Some(handler) },
        ),
        McpSpec::Tool => entries.insert(
            param@.name,
            ToolEntry {
                tool_type: ToolType::Mcp,
                config,
                server_label: param.server_label,
                handler: Some(handler),
            },
        ),
    }
}

/// After registering a declaration, the name the model calls it by leads to
/// an MCP entry with its handler and configuration, and every other name
/// keeps its entry.
pub proof fn lemma_registered_lookup<H>(
    entries: Map<Seq<char>, ToolEntry<H>>,
    param: McpToolParam,
    config: JsonValue,
    handler: H,
)
    ensures
        ({
            let key = if spec_of_name(param@.name) == McpSpec::Resources {
                READ_MCP_RESOURCE_TOOL_NAME@
            } else {
                param@.name
            };
            let after = registered(entries, param, config, handler);
            &&& after.contains_key(key)
            &&& after[key].tool_type == ToolType::Mcp
            &&& after[key].handler == Some(handler)
            &&& after[key].config == config
            &&& forall|k: Seq<char>| k != key ==> #[trigger] after.contains_key(k) == entries.contains_key(k)
                && (entries.contains_key(k) ==> after[k] == entries[k])
        }),
{
}

/// Registers the request-scoped MCP handler for `param` (see `registered`).
pub fn build_mcp_registry<H>(
    param: &McpToolParam,
    config: JsonValue,
    entries: &mut StringHashMap<ToolEntry<H>>,
    handler: H,
)
    ensures
        final(entries)@ == registered(old(entries)@, *param, config, handler),
{
    match McpSpec::from_param_name(param.name.as_str()) {
        McpSpec::Resources => register_read_resource(config, entries, handler),
        McpSpec::Tool => register_declared_tool_call(param, config, entries, handler),
    }
}

fn register_read_resource<H>(config: JsonValue, entries: &mut StringHashMap<ToolEntry<H>>, handler: H)
    ensures
        final(entries)@ == old(entries)@.insert(
            READ_MCP_RESOURCE_TOOL_NAME@,
            ToolEntry { tool_type: ToolType::Mcp, config, server_label: None, handler: Some(handler) },
        ),
{
    entries.insert(
        READ_MCP_RESOURCE_TOOL_NAME.to_owned(),
        ToolEntry { tool_type: ToolType::Mcp, config, server_label: None, handler: Some(handler) },
    );
}

fn register_declared_tool_call<H>(
    param: &McpToolParam,
    config: JsonValue,
    entries: &mut StringHashMap<ToolEntry<H>>,
    handler: H,
)
    ensures
        final(entries)@ == old(entries)@.insert(
            param@.name,
            ToolEntry {
                tool_type: ToolType::Mcp,
                config,
                server_label: param.server_label,
                handler: Some(handler),
            },
        ),
{
    let server_label = match &param.server_label {
        Some(l) => Some(l.clone()),
        None => None,
    };
    entries.insert(
        param.name.as_str().to_owned(),
        ToolEntry { tool_type: ToolType::Mcp, config, server_label, handler: Some(handler) },
    );
}

/// Registers `p` when an MCP handler is configured; without one the
/// registry is left as it is.
pub fn insert_mcp_entry<H>(
    entries: &mut StringHashMap<ToolEntry<H>>,
    p: &McpToolParam,
    config: JsonValue,
    handler: Option<H>,
)
    ensures
        match handler {
            Some(h) => final(entries)@ == registered(old(entries)@, *p, config, h),
            None => final(entries)@ == old(entries)@,
        },
{
    match handler {
        Some(h) => build_mcp_registry(p, config, entries, h),
        None => {},
    }
}

} // verus!
