use agentic_api::config::ServerConfig;
use agentic_api::json::JsonValue;
use agentic_api::mcp::client::{custom_headers, object_arguments, tool_call_arguments, HeaderError, McpOperation};
use agentic_api::normalize::{CustomToolParam, ResponsesTool};
use agentic_api::tools::{FunctionToolParam, McpToolParam, NonEmptyToolName};

fn mcp(name: &str) -> ResponsesTool {
    ResponsesTool::Mcp(McpToolParam {
        name: NonEmptyToolName::new(name).unwrap(),
        server_label: Some("repo".to_owned()),
        server_url: Some("http://localhost/mcp".to_owned()),
        headers: None,
    })
}

#[test]
fn function_declaration_becomes_function_tool() {
    let tool = ResponsesTool::Function(FunctionToolParam {
        name: NonEmptyToolName::new("get_weather").unwrap(),
        description: Some("Weather".to_owned()),
        parameters: Some(JsonValue::Object(vec![("type".to_owned(), JsonValue::String("object".to_owned()))])),
        strict: Some(true),
        extra: vec![],
    });
    let tools = tool.to_function_tools();
    assert_eq!(tools.len(), 1);
    assert_eq!(tools[0].type_, "function");
    assert_eq!(tools[0].name, "get_weather");
    assert_eq!(tools[0].description.as_deref(), Some("Weather"));
    assert_eq!(tools[0].strict, Some(true));
    assert_eq!(tools[0].parameters.as_ref().unwrap().get("type").and_then(|v| v.as_str()), Some("object"));
}

#[test]
fn mcp_resource_declaration_gives_reader_spec() {
    let tools = mcp("read_mcp_resource").to_function_tools();
    assert_eq!(tools.len(), 1);
    assert_eq!(tools[0].name, "read_mcp_resource");
    assert!(mcp("search").to_function_tools().is_empty());
}

#[test]
fn other_declarations_give_nothing() {
    assert!(ResponsesTool::FileSearch.to_function_tools().is_empty());
    assert!(ResponsesTool::CodeInterpreter.to_function_tools().is_empty());
    assert!(ResponsesTool::Unknown.to_function_tools().is_empty());
    assert!(ResponsesTool::Custom(CustomToolParam { name: "apply_patch".to_owned() }).to_function_tools().is_empty());
}

#[test]
fn operation_names() {
    assert_eq!(McpOperation::Connect.as_str(), "connect");
    assert_eq!(McpOperation::ListTools.as_str(), "tools/list");
    assert_eq!(McpOperation::CallTool.as_str(), "tools/call");
    assert_eq!(McpOperation::ReadResource.as_str(), "resources/read");
}

#[test]
fn tool_arguments_must_be_an_object() {
    assert!(matches!(object_arguments(None), Ok(None)));
    assert!(matches!(object_arguments(Some(JsonValue::Object(vec![]))), Ok(Some(m)) if m.is_empty()));
    assert!(object_arguments(Some(JsonValue::Array(vec![]))).is_err());
    assert!(object_arguments(Some(JsonValue::String("x".to_owned()))).is_err());
}

#[test]
fn cors_origins_from_environment_value() {
    assert!(ServerConfig::from_env(None).cors_allowed_origins.is_empty());
    assert_eq!(
        ServerConfig::from_env(Some("http://a.test, ,https://b.test ")).cors_allowed_origins,
        vec!["http://a.test", "https://b.test"]
    );
}

fn pairs(ps: &[(&str, &str)]) -> Vec<(String, String)> {
    ps.iter().map(|(n, v)| (n.to_string(), v.to_string())).collect()
}

#[test]
fn custom_headers_pass_valid_headers_through() {
    assert!(matches!(custom_headers(None), Ok(None)));
    assert!(matches!(custom_headers(Some(Vec::new())), Ok(None)));
    let given = pairs(&[("Authorization", "Bearer t\tx"), ("x-trace", "caf\u{e9}")]);
    assert_eq!(custom_headers(Some(given.clone())).unwrap(), Some(given));
}

#[test]
fn custom_headers_report_the_first_refused_header() {
    let bad_name = pairs(&[("ok", "1"), ("bad name", "2"), ("x", "a\nb")]);
    assert!(matches!(custom_headers(Some(bad_name)), Err(HeaderError::InvalidName(n)) if n == "bad name"));
    let bad_value = pairs(&[("ok", "1"), ("x", "a\nb"), ("bad name", "2")]);
    assert!(matches!(custom_headers(Some(bad_value)), Err(HeaderError::InvalidValue(v)) if v == "a\nb"));
    assert!(matches!(custom_headers(Some(pairs(&[("", "v")]))), Err(HeaderError::InvalidName(_))));
    assert!(matches!(custom_headers(Some(pairs(&[("caf\u{e9}", "v")]))), Err(HeaderError::InvalidName(_))));
    assert!(matches!(custom_headers(Some(pairs(&[("k", "\u{7f}")]))), Err(HeaderError::InvalidValue(_))));
}

#[test]
fn tool_call_arguments_from_text() {
    assert!(matches!(tool_call_arguments(r#"{"q": 1}"#), Ok(Some(m)) if m.len() == 1 && m[0].0 == "q"));
    assert!(matches!(tool_call_arguments("not json"), Ok(None)));
    assert!(tool_call_arguments("[1]").is_err());
}
