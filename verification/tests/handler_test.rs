use std::sync::Arc;

use agentic_api::json::JsonValue;
use agentic_api::mcp::handler::{
    call_output_id, discovered_tool_handlers_for, output_id_with, read_resource_output, read_resource_request,
    tool_call_config, tool_call_output, McpCallResult, mcp_tool_to_function_tool, output_item,
    read_resource_client, started_output_item, McpHandler, McpHandlerFactory, McpSpec, McpTarget,
};
use agentic_api::mcp::pool::McpClientPool;
use agentic_api::mcp::read_resource::{read_mcp_resource_spec, ReadResourceArgs, READ_MCP_RESOURCE_TOOL_NAME};
use agentic_api::output::{FunctionToolCall, GatewayCallStatus, OutputItem};
use agentic_api::tools::{McpDiscoveredToolParam, McpTool, McpToolParam, NonEmptyToolName, ToolError, ToolOutput};

fn call(id: &str, call_id: &str, arguments: &str) -> FunctionToolCall {
    FunctionToolCall {
        id: id.to_owned(),
        call_id: call_id.to_owned(),
        name: "read_mcp_resource".to_owned(),
        namespace: None,
        arguments: arguments.to_owned(),
    }
}

fn tool(name: &str, schema: Vec<(String, JsonValue)>) -> McpTool {
    McpTool { name: name.to_owned(), description: Some("does things".to_owned()), input_schema: schema }
}

#[test]
fn read_mcp_resource_spec_has_expected_shape() {
    let spec = read_mcp_resource_spec();

    assert_eq!(spec.type_, "function");
    assert_eq!(spec.name, READ_MCP_RESOURCE_TOOL_NAME);
    let required = spec.parameters.as_ref().unwrap().get("required").unwrap();
    match required {
        JsonValue::Array(items) => {
            let names: Vec<&str> = items.iter().map(|v| v.as_str().unwrap()).collect();
            assert_eq!(names, vec!["server", "uri"]);
        }
        other => panic!("expected array, got {other:?}"),
    }
    assert_eq!(spec.strict, Some(false));
}

#[test]
fn spec_from_name() {
    assert_eq!(McpSpec::from_param_name("read_mcp_resource"), McpSpec::Resources);
    assert_eq!(McpSpec::from_param_name("read_mcp_resources"), McpSpec::Tool);
    assert_eq!(McpSpec::from_param_name(""), McpSpec::Tool);
}

#[test]
fn call_output_id_reuses_call_ids() {
    assert_eq!(call_output_id(&call("fc_123", "call_9", "{}")), "mcp_123");
    assert_eq!(call_output_id(&call("fc_", "call_9", "{}")), "mcp_9");
    assert_eq!(call_output_id(&call("x", "call_abc", "{}")), "mcp_abc");
    let fresh = call_output_id(&call("fc_", "call_", "{}"));
    assert!(fresh.starts_with("mcp_"));
    let uuid: Vec<char> = fresh["mcp_".len()..].chars().collect();
    assert_eq!(uuid.len(), 36);
    for (i, c) in uuid.iter().enumerate() {
        if i == 8 || i == 13 || i == 18 || i == 23 {
            assert_eq!(*c, '-');
        } else {
            assert!(c.is_ascii_digit() || ('a'..='f').contains(c));
        }
    }
}

#[test]
fn output_id_falls_back_to_fresh_text() {
    assert_eq!(output_id_with(&call("fc_7", "call_8", "{}"), "u"), "mcp_7");
    assert_eq!(output_id_with(&call("other", "call_8", "{}"), "u"), "mcp_8");
    assert_eq!(output_id_with(&call("fc_", "call_", "{}"), "0190-abc"), "mcp_0190-abc");
}

#[test]
fn completed_output_item_carries_result() {
    let c = call("fc_1", "call_1", "{\"server\": \" repo \", \"uri\": \"repo://x\"}");
    let out = ToolOutput { call_id: "call_1".to_owned(), output: "{\"contents\":[]}".to_owned() };
    match output_item(&c, &out, GatewayCallStatus::Completed) {
        OutputItem::McpToolCall(m) => {
            assert_eq!(m.id, "mcp_1");
            assert_eq!(m.server, "repo");
            assert_eq!(m.tool, "read_mcp_resource");
            assert_eq!(m.status.as_str(), "completed");
            assert!(m.error.is_none());
            assert!(matches!(m.result, Some(JsonValue::Object(_))));
            assert_eq!(m.arguments.get("uri").and_then(|v| v.as_str()), Some("repo://x"));
        }
        other => panic!("expected McpToolCall, got {other:?}"),
    }
}

#[test]
fn failed_output_item_reports_error() {
    let c = call("fc_2", "call_2", "not json");
    let out = ToolOutput { call_id: "call_2".to_owned(), output: "{\"error\": \" boom \"}".to_owned() };
    match output_item(&c, &out, GatewayCallStatus::Failed) {
        OutputItem::McpToolCall(m) => {
            assert_eq!(m.server, "");
            assert!(matches!(&m.arguments, JsonValue::Object(es) if es.is_empty()));
            assert_eq!(m.error.as_deref(), Some("boom"));
            assert!(m.result.is_none());
        }
        other => panic!("expected McpToolCall, got {other:?}"),
    }
    let out = ToolOutput { call_id: "call_2".to_owned(), output: "unknown MCP server: repo".to_owned() };
    match output_item(&c, &out, GatewayCallStatus::Failed) {
        OutputItem::McpToolCall(m) => assert_eq!(m.error.as_deref(), Some("unknown MCP server: repo")),
        other => panic!("expected McpToolCall, got {other:?}"),
    }
}

#[test]
fn completed_non_json_output_is_a_string_result() {
    let c = call("fc_3", "call_3", "{}");
    let out = ToolOutput { call_id: "call_3".to_owned(), output: "plain".to_owned() };
    match output_item(&c, &out, GatewayCallStatus::Completed) {
        OutputItem::McpToolCall(m) => {
            assert_eq!(m.result.as_ref().and_then(|v| v.as_str()), Some("plain"));
        }
        other => panic!("expected McpToolCall, got {other:?}"),
    }
}

#[test]
fn started_output_item_is_in_progress() {
    let c = call("fc_4", "call_4", "{\"server\": \"docs\"}");
    match started_output_item(&c) {
        OutputItem::McpToolCall(m) => {
            assert_eq!(m.status, GatewayCallStatus::InProgress);
            assert_eq!(m.server, "docs");
            assert_eq!(m.id, "mcp_4");
            assert!(m.result.is_none() && m.error.is_none());
        }
        other => panic!("expected McpToolCall, got {other:?}"),
    }
}

#[test]
fn read_resource_client_explains_missing_servers() {
    let mut pool: McpClientPool<u8> = McpClientPool::new();
    pool.record_connection("repo".to_owned(), Ok(1));
    pool.record_connection("down".to_owned(), Err("refused".to_owned()));
    assert_eq!(read_resource_client(&pool, "repo").ok(), Some(&1));
    match read_resource_client(&pool, "down") {
        Err(ToolError::Execution(m)) => assert_eq!(m, "MCP server 'down' failed to connect: refused"),
        other => panic!("unexpected {other:?}"),
    }
    match read_resource_client(&pool, "nope") {
        Err(ToolError::Execution(m)) => assert_eq!(m, "unknown MCP server: nope"),
        other => panic!("unexpected {other:?}"),
    }
}

#[test]
fn spec_only_handlers_cannot_execute() {
    let h: McpHandler<u8> = McpHandler::read_resource_spec_only();
    match h.execution_target() {
        Err(ToolError::Config(m)) => assert_eq!(m, "read_mcp_resource spec-only handler cannot execute tools"),
        _ => panic!("expected config error"),
    }
    let h: McpHandler<u8> = McpHandler::discovered_tool_spec_only();
    match h.execution_target() {
        Err(ToolError::Config(m)) => assert_eq!(m, "MCP tool spec-only handler cannot execute tools"),
        _ => panic!("expected config error"),
    }
    let h: McpHandler<u8> = McpHandler::tool_call(5);
    assert!(matches!(h.execution_target(), Ok(McpTarget::Client(5))));
    let h: McpHandler<u8> = McpHandler::read_resource(Arc::new(McpClientPool::new()));
    assert!(matches!(h.execution_target(), Ok(McpTarget::Resources(_))));
}

#[test]
fn tool_schema_gets_empty_properties() {
    let t = mcp_tool_to_function_tool("repo__search", tool("search", vec![("type".to_owned(), JsonValue::String("object".to_owned()))]));
    assert_eq!(t.name, "repo__search");
    assert_eq!(t.type_, "function");
    assert_eq!(t.description.as_deref(), Some("does things"));
    let params = t.parameters.unwrap();
    assert!(matches!(params.get("properties"), Some(JsonValue::Object(es)) if es.is_empty()));
    assert_eq!(params.get("type").and_then(|v| v.as_str()), Some("object"));

    let ms = t_members(mcp_tool_to_function_tool("x", tool("x", vec![("type".to_owned(), JsonValue::Null)])));
    assert_eq!(ms.len(), 2);
    assert_eq!(ms[0].0, "type");
    assert_eq!(ms[1].0, "properties");

    let t = mcp_tool_to_function_tool(
        "x",
        tool(
            "x",
            vec![("properties".to_owned(), JsonValue::Null), ("type".to_owned(), JsonValue::Null)],
        ),
    );
    let ms = t_members(t);
    assert_eq!(ms.len(), 2);
    assert_eq!(ms[0].0, "properties");
    assert!(matches!(&ms[0].1, JsonValue::Object(es) if es.is_empty()));

    let props = JsonValue::Object(vec![("q".to_owned(), JsonValue::Null)]);
    let t = mcp_tool_to_function_tool("x", tool("x", vec![("properties".to_owned(), props)]));
    assert!(matches!(t.parameters.unwrap().get("properties"), Some(JsonValue::Object(es)) if es.len() == 1));
}

#[test]
fn normalize_offers_specs_by_kind() {
    let h: McpHandler<u8> = McpHandler::read_resource_spec_only();
    let specs = h.normalize(None);
    assert_eq!(specs.len(), 1);
    assert_eq!(specs[0].name, "read_mcp_resource");

    let h: McpHandler<u8> = McpHandler::discovered_tool_spec_only();
    assert!(h.normalize(None).is_empty());
    let discovered = McpDiscoveredToolParam {
        server_label: "repo".to_owned(),
        tool_name: "search".to_owned(),
        exposed_name: "repo__search".to_owned(),
        tool: tool("search", vec![]),
    };
    let specs = h.normalize(Some(discovered));
    assert_eq!(specs.len(), 1);
    assert_eq!(specs[0].name, "repo__search");

    let p = McpToolParam {
        name: NonEmptyToolName::new("read_mcp_resource").unwrap(),
        server_label: None,
        server_url: None,
        headers: None,
    };
    let h: McpHandler<u8> = McpHandler::spec_from_param(Some(&p));
    assert_eq!(h.spec(), McpSpec::Resources);
    let h: McpHandler<u8> = McpHandler::spec_from_param(None);
    assert_eq!(h.spec(), McpSpec::Tool);
}

#[test]
fn discovered_tools_are_exposed_under_server_label() {
    let factory = McpHandlerFactory::new();
    let handlers = discovered_tool_handlers_for(&factory, "repo", &9u8, vec![tool("search", vec![]), tool("read", vec![])]);
    assert_eq!(handlers.len(), 2);
    assert_eq!(handlers[0].param.exposed_name, "repo__search");
    assert_eq!(handlers[1].param.exposed_name, "repo__read");
    assert_eq!(handlers[1].param.tool_name, "read");
    assert_eq!(handlers[0].param.server_label, "repo");
    assert!(matches!(handlers[0].handler.execution_target(), Ok(McpTarget::Client(9))));
}

fn t_members(t: agentic_api::tools::FunctionTool) -> Vec<(String, JsonValue)> {
    match t.parameters {
        Some(JsonValue::Object(ms)) => ms,
        other => panic!("expected object parameters, got {other:?}"),
    }
}

fn execution_error(r: Result<ToolOutput, ToolError>) -> String {
    match r {
        Err(ToolError::Execution(m)) => m,
        other => panic!("expected an execution error, got {other:?}"),
    }
}

#[test]
fn read_resource_request_picks_client_and_uri() {
    let mut pool: McpClientPool<u8> = McpClientPool::new();
    pool.record_connection("repo".to_owned(), Ok(4));
    pool.record_connection("down".to_owned(), Err("refused".to_owned()));
    let args = |server: &str| Ok(ReadResourceArgs { server: server.to_owned(), uri: "file:///a".to_owned() });
    let (client, uri) = read_resource_request(&pool, args("repo")).unwrap();
    assert_eq!((*client, uri.as_str()), (4, "file:///a"));
    assert!(matches!(read_resource_request(&pool, args("down")),
        Err(ToolError::Execution(m)) if m == "MCP server 'down' failed to connect: refused"));
    assert!(matches!(read_resource_request(&pool, args("x")),
        Err(ToolError::Execution(m)) if m == "unknown MCP server: x"));
    assert!(matches!(read_resource_request(&pool, Err("missing field `uri`".to_owned())),
        Err(ToolError::Execution(m)) if m == "invalid read_mcp_resource arguments: missing field `uri`"));
}

#[test]
fn call_outputs_and_their_errors() {
    let out = read_resource_output("call_1", McpCallResult::Completed("{}".to_owned())).unwrap();
    assert_eq!((out.call_id.as_str(), out.output.as_str()), ("call_1", "{}"));
    assert_eq!(
        execution_error(read_resource_output("c", McpCallResult::Failed("timed out".to_owned()))),
        "resources/read failed: timed out"
    );
    assert_eq!(
        execution_error(read_resource_output("c", McpCallResult::Unserializable("bad".to_owned()))),
        "failed to serialize resources/read result: bad"
    );
    let out = tool_call_output("call_2", "repo", McpCallResult::Completed("[]".to_owned())).unwrap();
    assert_eq!((out.call_id.as_str(), out.output.as_str()), ("call_2", "[]"));
    assert_eq!(
        execution_error(tool_call_output("c", "repo", McpCallResult::Failed("boom".to_owned()))),
        "tools/call failed for MCP server 'repo': boom"
    );
    assert_eq!(
        execution_error(tool_call_output("c", "repo", McpCallResult::Unserializable("bad".to_owned()))),
        "failed to serialize tools/call result: bad"
    );
}

#[test]
fn tool_call_config_reports_undecodable_config() {
    assert!(matches!(tool_call_config(Err("missing field `tool`".to_owned())),
        Err(ToolError::Config(m)) if m == "invalid MCP tool config: missing field `tool`"));
    let p = McpDiscoveredToolParam {
        server_label: "repo".to_owned(),
        tool_name: "search".to_owned(),
        exposed_name: "repo__search".to_owned(),
        tool: tool("search", vec![]),
    };
    assert_eq!(tool_call_config(Ok(p)).unwrap().exposed_name, "repo__search");
}
