use agentic_api::executors::{GatewayExecutor, GatewayExecutors};
use agentic_api::json::JsonValue;
use agentic_api::mcp::handler::McpHandler;
use agentic_api::mcp::registry::{build_mcp_registry, insert_mcp_entry};
use agentic_api::tools::{McpToolParam, NonEmptyToolName, ToolEntry, ToolType};
use vstd::hash_map::StringHashMap;

fn param(name: &str, label: Option<&str>) -> McpToolParam {
    McpToolParam {
        name: NonEmptyToolName::new(name).unwrap(),
        server_label: label.map(str::to_owned),
        server_url: None,
        headers: None,
    }
}

#[test]
fn resource_reader_is_registered_under_its_function_name() {
    let mut entries: StringHashMap<ToolEntry<u8>> = StringHashMap::new();
    build_mcp_registry(&param("read_mcp_resource", Some("repo")), JsonValue::Null, &mut entries, 1);
    let e = entries.get("read_mcp_resource").unwrap();
    assert_eq!(e.tool_type, ToolType::Mcp);
    assert!(e.server_label.is_none());
    assert_eq!(e.handler, Some(1));
}

#[test]
fn declared_tool_is_registered_under_its_name_and_replaced() {
    let mut entries: StringHashMap<ToolEntry<u8>> = StringHashMap::new();
    build_mcp_registry(&param("search", Some("repo")), JsonValue::Null, &mut entries, 1);
    build_mcp_registry(&param("search", Some("docs")), JsonValue::Bool(true), &mut entries, 2);
    assert_eq!(entries.len(), 1);
    let e = entries.get("search").unwrap();
    assert_eq!(e.server_label.as_deref(), Some("docs"));
    assert_eq!(e.handler, Some(2));
    assert!(matches!(e.config, JsonValue::Bool(true)));
}

#[test]
fn no_handler_registers_nothing() {
    let mut entries: StringHashMap<ToolEntry<u8>> = StringHashMap::new();
    insert_mcp_entry(&mut entries, &param("search", Some("repo")), JsonValue::Null, None);
    assert!(entries.is_empty());
    insert_mcp_entry(&mut entries, &param("search", Some("repo")), JsonValue::Null, Some(4));
    assert_eq!(entries.len(), 1);
}

#[test]
fn executors_slot_by_kind() {
    let mut execs: GatewayExecutors<McpHandler<u8>> = GatewayExecutors::new();
    assert!(execs.registered_mcp_handler().is_none());
    assert!(execs.web_search_handler().is_none());
    let h = McpHandler::tool_call(3);
    assert_eq!(h.tool_type(), ToolType::Mcp);
    execs.insert(h);
    assert!(execs.registered_mcp_handler().is_some());
    assert!(execs.web_search_handler().is_none());
    let execs = GatewayExecutors::from_env(McpHandler::<u8>::discovered_tool_spec_only());
    assert!(execs.registered_mcp_handler().is_none());
    assert!(execs.web_search_handler().is_some());
}
