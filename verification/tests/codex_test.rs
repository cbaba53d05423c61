use agentic_api::json::JsonValue;
use agentic_api::mcp::codex_mcp_resource::{maybe_mcp_function, mcp_params_from_metadata, McpFunctionMetadata};
use agentic_api::tools::{FunctionToolParam, NonEmptyToolName};

fn s(v: &str) -> JsonValue {
    JsonValue::String(v.to_owned())
}

fn obj(members: Vec<(&str, JsonValue)>) -> JsonValue {
    JsonValue::Object(members.into_iter().map(|(k, v)| (k.to_owned(), v)).collect())
}

fn function(name: &str, extra: Vec<(&str, JsonValue)>) -> FunctionToolParam {
    FunctionToolParam {
        name: NonEmptyToolName::new(name).unwrap(),
        description: None,
        parameters: None,
        strict: None,
        extra: extra.into_iter().map(|(k, v)| (k.to_owned(), v)).collect(),
    }
}

#[test]
fn other_functions_are_not_mcp() {
    assert!(maybe_mcp_function(&function("search", vec![])).is_none());
}

#[test]
fn read_mcp_resource_without_metadata_declares_nothing() {
    assert_eq!(maybe_mcp_function(&function("read_mcp_resource", vec![])).unwrap().len(), 0);
}

#[test]
fn single_server_metadata_with_url_alias() {
    let metadata = obj(vec![("server_label", s("repo")), ("url", s("http://localhost:8000/mcp"))]);
    let params = maybe_mcp_function(&function("read_mcp_resource", vec![("metadata", metadata)])).unwrap();
    assert_eq!(params.len(), 1);
    assert_eq!(params[0].name.as_str(), "read_mcp_resource");
    assert_eq!(params[0].server_label.as_deref(), Some("repo"));
    assert_eq!(params[0].server_url.as_deref(), Some("http://localhost:8000/mcp"));
    assert!(params[0].headers.is_none());
}

#[test]
fn metadata_without_url_declares_nothing() {
    let metadata = obj(vec![("server_label", s("repo"))]);
    let params = maybe_mcp_function(&function("read_mcp_resource", vec![("metadata", metadata)])).unwrap();
    assert!(params.is_empty());
}

#[test]
fn several_servers_each_become_a_declaration() {
    let servers = obj(vec![
        ("docs", obj(vec![("server_url", s("http://localhost:1/mcp"))])),
        (
            "repo",
            obj(vec![
                ("url", s("http://localhost:2/mcp")),
                ("headers", obj(vec![("Authorization", s("Bearer t"))])),
            ]),
        ),
    ]);
    let metadata = obj(vec![("mcp_servers", servers), ("server_label", s("ignored"))]);
    let params = maybe_mcp_function(&function("read_mcp_resource", vec![("metadata", metadata)])).unwrap();
    assert_eq!(params.len(), 2);
    assert_eq!(params[0].server_label.as_deref(), Some("docs"));
    assert_eq!(params[1].server_url.as_deref(), Some("http://localhost:2/mcp"));
    let headers = params[1].headers.as_ref().unwrap();
    assert_eq!(headers, &vec![("Authorization".to_owned(), "Bearer t".to_owned())]);
}

#[test]
fn unreadable_metadata_declares_nothing() {
    let both = obj(vec![("server_label", s("repo")), ("url", s("a")), ("server_url", s("b"))]);
    assert!(McpFunctionMetadata::from_json(&both).is_none());
    let bad_server = obj(vec![("mcp_servers", obj(vec![("repo", obj(vec![]))]))]);
    assert!(McpFunctionMetadata::from_json(&bad_server).is_none());
    let wrong_type = obj(vec![("server_label", JsonValue::Bool(true))]);
    assert!(McpFunctionMetadata::from_json(&wrong_type).is_none());
    assert!(McpFunctionMetadata::from_json(&s("x")).is_none());
    let params = maybe_mcp_function(&function("read_mcp_resource", vec![("metadata", both)])).unwrap();
    assert!(params.is_empty());
}

#[test]
fn null_members_read_as_absent() {
    let metadata = obj(vec![
        ("server_label", s("repo")),
        ("server_url", s("http://localhost/mcp")),
        ("headers", JsonValue::Null),
    ]);
    let m = McpFunctionMetadata::from_json(&metadata).unwrap();
    assert!(m.headers.is_none());
    let params = mcp_params_from_metadata(m);
    assert_eq!(params.len(), 1);
}

#[test]
fn metadata_and_servers_read_from_arrays_of_fields() {
    let servers = obj(vec![("repo", JsonValue::Array(vec![s("http://localhost:3/mcp")]))]);
    let metadata = JsonValue::Array(vec![servers]);
    let params = maybe_mcp_function(&function("read_mcp_resource", vec![("metadata", metadata)])).unwrap();
    assert_eq!(params.len(), 1);
    assert_eq!(params[0].server_label.as_deref(), Some("repo"));
    assert_eq!(params[0].server_url.as_deref(), Some("http://localhost:3/mcp"));

    let single = JsonValue::Array(vec![obj(vec![]), s("docs"), s("http://localhost:4/mcp"), JsonValue::Null]);
    let m = McpFunctionMetadata::from_json(&single).unwrap();
    assert_eq!(m.server_label.as_deref(), Some("docs"));
    assert_eq!(mcp_params_from_metadata(m).len(), 1);
}

#[test]
fn arrays_of_fields_with_wrong_lengths_are_unreadable() {
    let too_long = JsonValue::Array(vec![obj(vec![]), JsonValue::Null, JsonValue::Null, JsonValue::Null, JsonValue::Null]);
    assert!(McpFunctionMetadata::from_json(&too_long).is_none());
    let server_without_url = obj(vec![("mcp_servers", obj(vec![("repo", JsonValue::Array(vec![]))]))]);
    assert!(McpFunctionMetadata::from_json(&server_without_url).is_none());
    let null_servers = JsonValue::Array(vec![JsonValue::Null]);
    assert!(McpFunctionMetadata::from_json(&null_servers).is_none());
    let empty = McpFunctionMetadata::from_json(&JsonValue::Array(vec![])).unwrap();
    assert!(mcp_params_from_metadata(empty).is_empty());
}
