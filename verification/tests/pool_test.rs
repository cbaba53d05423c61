use std::sync::Arc;

use agentic_api::mcp::handler::{McpHandlerFactory, McpSpec};
use agentic_api::mcp::pool::{
    check_request_url, parse_allowed_hosts, server_entries_from_params, server_entry_from_param,
    validate_request_server_url, McpClientPool, McpServerEntry, RequestHost, UrlParts,
};
use agentic_api::tools::{McpToolParam, NonEmptyToolName};

fn param(name: &str, label: Option<&str>, url: Option<&str>) -> McpToolParam {
    McpToolParam {
        name: NonEmptyToolName::new(name).unwrap(),
        server_label: label.map(str::to_owned),
        server_url: url.map(str::to_owned),
        headers: None,
    }
}

#[test]
fn request_server_url_allows_loopback_http() {
    let url = validate_request_server_url("http://127.0.0.1:8000/mcp", &Vec::new()).unwrap();
    assert_eq!(url, "http://127.0.0.1:8000/mcp");
}

#[test]
fn request_server_url_allows_ipv6_loopback_http() {
    let url = validate_request_server_url("http://[::1]:8000/mcp", &Vec::new()).unwrap();
    assert_eq!(url, "http://[::1]:8000/mcp");
}

#[test]
fn request_server_url_rejects_unallowlisted_host() {
    let error = validate_request_server_url("http://169.254.169.254/mcp", &Vec::new()).unwrap_err();
    assert!(error.contains("not allowed"));
}

#[test]
fn request_params_do_not_accept_stdio_command() {
    // A declaration naming a command but no server URL names no server.
    let p = param("read_mcp_resource", Some("repo"), None);
    assert!(server_entry_from_param(&p, &Vec::new()).is_none());
}

#[test]
fn allowed_host_parser_trims_and_discards_empty_entries() {
    assert_eq!(
        parse_allowed_hosts(" Example.COM, ,api.test "),
        vec!["Example.COM", "api.test"]
    );
}

#[test]
fn allowed_host_parser_handles_empty_and_single_values() {
    assert!(parse_allowed_hosts("").is_empty());
    assert!(parse_allowed_hosts(" , ,").is_empty());
    assert_eq!(parse_allowed_hosts("a"), vec!["a"]);
    assert_eq!(parse_allowed_hosts("\tmcp.internal\n"), vec!["mcp.internal"]);
}

#[test]
fn request_server_url_allows_localhost_in_any_case() {
    assert!(validate_request_server_url("http://LocalHost:9000/mcp", &Vec::new()).is_ok());
    assert!(validate_request_server_url("https://localhost/mcp", &Vec::new()).is_ok());
    assert!(validate_request_server_url("http://127.8.9.10/mcp", &Vec::new()).is_ok());
}

#[test]
fn request_server_url_allows_listed_host_ignoring_case() {
    let allowed = parse_allowed_hosts("Example.COM");
    assert_eq!(
        validate_request_server_url("http://example.com/mcp", &allowed).unwrap(),
        "http://example.com/mcp"
    );
    let allowed = parse_allowed_hosts("10.0.0.5");
    assert!(validate_request_server_url("http://10.0.0.5:8000/mcp", &allowed).is_ok());
    assert!(validate_request_server_url("http://10.0.0.6:8000/mcp", &allowed).is_err());
}

#[test]
fn request_server_url_error_messages() {
    assert_eq!(
        validate_request_server_url("ftp://localhost/mcp", &Vec::new()).unwrap_err(),
        "URL scheme must be http or https"
    );
    assert_eq!(
        validate_request_server_url("http://user:pw@localhost/mcp", &Vec::new()).unwrap_err(),
        "URL must not include credentials"
    );
    assert_eq!(
        validate_request_server_url("http://evil.test/mcp", &Vec::new()).unwrap_err(),
        "MCP server_url host is not allowed; set AGENTIC_MCP_ALLOWED_HOSTS to allow it"
    );
    let invalid = validate_request_server_url("not a url", &Vec::new()).unwrap_err();
    assert!(invalid.starts_with("invalid URL: "));
}

#[test]
fn url_check_without_host_is_refused() {
    let parts = UrlParts {
        scheme: "http".to_owned(),
        username: String::new(),
        password: None,
        host: None,
    };
    assert_eq!(
        check_request_url("http:x", Ok(parts), &Vec::new()).unwrap_err(),
        "URL must include a host"
    );
    let parts = UrlParts {
        scheme: "https".to_owned(),
        username: String::new(),
        password: None,
        host: Some(RequestHost::Ipv6 { segments: [0, 0, 0, 0, 0, 0, 0, 1], text: "::1".to_owned() }),
    };
    assert_eq!(check_request_url("https://[::1]/", Ok(parts), &Vec::new()).unwrap(), "https://[::1]/");
}

#[test]
fn server_entry_trims_label_and_url() {
    let p = param("tool", Some("  repo "), Some(" http://localhost:9000/mcp "));
    let (label, entry) = server_entry_from_param(&p, &Vec::new()).unwrap();
    assert_eq!(label, "repo");
    match entry {
        McpServerEntry::Http { url, headers } => {
            assert_eq!(url, "http://localhost:9000/mcp");
            assert!(headers.is_none());
        }
        McpServerEntry::Stdio { .. } => panic!("expected HTTP MCP config"),
    }
    assert!(server_entry_from_param(&param("tool", Some("  "), Some("http://localhost/")), &Vec::new()).is_none());
    assert!(server_entry_from_param(&param("tool", None, Some("http://localhost/")), &Vec::new()).is_none());
}

#[test]
fn later_declaration_of_a_label_wins() {
    let params = vec![
        param("a", Some("repo"), Some("http://localhost:1/mcp")),
        param("b", Some("docs"), Some("http://localhost:2/mcp")),
        param("c", Some("repo"), Some("http://localhost:3/mcp")),
        param("d", Some("bad"), Some("http://169.254.169.254/mcp")),
    ];
    let entries = server_entries_from_params(&params, &Vec::new());
    assert_eq!(entries.len(), 2);
    let repo = entries.iter().find(|(l, _)| l == "repo").unwrap();
    match &repo.1 {
        McpServerEntry::Http { url, .. } => assert_eq!(url, "http://localhost:3/mcp"),
        McpServerEntry::Stdio { .. } => panic!("expected HTTP MCP config"),
    }
}

#[test]
fn pool_records_clients_and_errors() {
    let mut pool: McpClientPool<u32> = McpClientPool::new();
    assert!(pool.is_empty());
    pool.record_connection("repo".to_owned(), Ok(7));
    pool.record_connection("down".to_owned(), Err("connection refused".to_owned()));
    assert!(!pool.is_empty());
    assert_eq!(pool.get("repo"), Some(&7));
    assert_eq!(pool.get("down"), None);
    assert_eq!(pool.connection_error("down"), Some("connection refused"));
    assert_eq!(pool.connection_error("repo"), None);
    pool.record_connection("docs".to_owned(), Ok(9));
    let servers: Vec<(String, u32)> = pool.iter().into_iter().map(|(l, c)| (l.clone(), *c)).collect();
    assert_eq!(servers, vec![("repo".to_owned(), 7), ("docs".to_owned(), 9)]);
    assert_eq!(pool.client_for_param(&param("x", Some(" repo "), None)), Some(&7));
    assert_eq!(pool.client_for_param(&param("x", Some("down"), None)), None);
    assert_eq!(pool.client_for_param(&param("x", None, None)), None);
}

#[test]
fn factory_picks_handler_by_declaration_name() {
    let mut pool: McpClientPool<u32> = McpClientPool::new();
    pool.record_connection("repo".to_owned(), Ok(3));
    let pool = Arc::new(pool);
    let factory = McpHandlerFactory::new();
    let h = factory
        .handler_for(&param("read_mcp_resource", Some("missing"), None), Arc::clone(&pool))
        .unwrap();
    assert_eq!(h.spec(), McpSpec::Resources);
    let h = factory.handler_for(&param("search", Some("repo"), None), Arc::clone(&pool)).unwrap();
    assert_eq!(h.spec(), McpSpec::Tool);
    assert!(factory.handler_for(&param("search", Some("other"), None), pool).is_none());
}

#[test]
fn pool_from_outcomes_records_each_server() {
    let outcomes = vec![
        ("repo".to_owned(), Ok(1u32)),
        ("down".to_owned(), Err("refused".to_owned())),
        ("repo".to_owned(), Err("later".to_owned())),
        ("docs".to_owned(), Ok(2u32)),
    ];
    let pool = McpClientPool::from_outcomes(outcomes);
    assert_eq!(pool.get("repo"), Some(&1));
    assert_eq!(pool.connection_error("repo"), None);
    assert_eq!(pool.connection_error("down"), Some("refused"));
    assert_eq!(pool.get("down"), None);
    assert_eq!(pool.get("docs"), Some(&2));
    assert_eq!(pool.get("other"), None);
    assert_eq!(pool.connection_error("other"), None);
}
