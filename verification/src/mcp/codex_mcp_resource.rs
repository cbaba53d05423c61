//! Bridge support for Codex's local `read_mcp_resource` function tool: the
//! `metadata` of that function declaration names the MCP servers (label and
//! URL) that the model's `server` argument refers to, and the gateway turns
//! it into MCP declarations.

use vstd::prelude::*;

use crate::json::{find_member, member, JsonValue};
use crate::mcp::pool::param_views;
use crate::mcp::read_resource::READ_MCP_RESOURCE_TOOL_NAME;
use crate::text::opt_text;
use crate::tools::{headers_view, FunctionToolParam, Headers, McpToolParam, McpToolParamView, NonEmptyToolName};

verus! {

/// One server of the metadata: its URL and the headers to send.
#[derive(Debug)]
pub struct McpFunctionServer {
    pub server_url: String,
    pub headers: Option<Headers>,
}

/// The MCP metadata of a `read_mcp_resource` declaration: several servers by
/// label, or a single server given by label and URL.
#[derive(Debug)]
pub struct McpFunctionMetadata {
    pub mcp_servers: Vec<(String, McpFunctionServer)>,
    pub server_label: Option<String>,
    pub server_url: Option<String>,
    pub headers: Option<Headers>,
}

/// A header list as plain text.
pub type HeadersView = Seq<(Seq<char>, Seq<char>)>;

/// A metadata server as plain text: URL and headers.
pub type ServerView = (Seq<char>, Option<HeadersView>);

/// The metadata as plain text.
pub struct McpFunctionMetadataView {
    pub mcp_servers: Seq<(Seq<char>, ServerView)>,
    pub server_label: Option<Seq<char>>,
    pub server_url: Option<Seq<char>>,
    pub headers: Option<HeadersView>,
}

/// The view of a metadata server.
pub open spec fn server_view(s: McpFunctionServer) -> ServerView {
    (s.server_url@, headers_view(s.headers))
}

impl View for McpFunctionMetadata {
    type V = McpFunctionMetadataView;

    open spec fn view(&self) -> McpFunctionMetadataView {
        McpFunctionMetadataView {
            mcp_servers: self.mcp_servers@.map_values(
                |e: (String, McpFunctionServer)| (e.0@, server_view(e.1)),
            ),
            server_label: opt_text(self.server_label),
            server_url: opt_text(self.server_url),
            headers: headers_view(self.headers),
        }
    }
}

// ---- reading the metadata from JSON ----------------------------------------
//
// A member that may be absent reads as its default; `null` reads as `None`
// for optional members; `server_url` may also be spelled `url`, but not both.
// Any other member is ignored; a member of the wrong type makes the whole
// metadata unreadable (`None`). The metadata and each server may also be an
// array of their fields in declaration order (`mcp_servers`, `server_label`,
// `server_url`, `headers`; `server_url`, `headers`), with trailing optional
// fields left out and no extra elements.

/// Element `i` of an array, when the array is that long.
pub open spec fn element(items: Seq<JsonValue>, i: int) -> Option<JsonValue> {
    if 0 <= i < items.len() {
        Some(items[i])
    } else {
        None
    }
}

/// An optional string member: `Some(None)` when absent or null, `None` when
/// it is not a string.
pub open spec fn string_field(v: Option<JsonValue>) -> Option<Option<Seq<char>>> {
    match v {
        None => Some(None),
        Some(JsonValue::Null) => Some(None),
        Some(JsonValue::String(s)) => Some(Some(s@)),
        Some(_) => None,
    }
}

/// The member spelled `a` or `b`: `Some(None)` when neither is there, `None`
/// when both are.
pub open spec fn aliased(es: Seq<(String, JsonValue)>, a: Seq<char>, b: Seq<char>) -> Option<Option<JsonValue>> {
    match (member(es, a), member(es, b)) {
        (Some(_), Some(_)) => None,
        (Some(x), None) => Some(Some(x)),
        (None, Some(y)) => Some(Some(y)),
        (None, None) => Some(None),
    }
}

/// The header pairs of an object whose members are all strings.
pub open spec fn string_pairs(es: Seq<(String, JsonValue)>) -> Option<HeadersView>
    decreases es.len(),
{
    if es.len() == 0 {
        Some(Seq::empty())
    } else {
        match (string_pairs(es.drop_last()), es.last().1) {
            (Some(ps), JsonValue::String(s)) => Some(ps.push((es.last().0@, s@))),
            _ => None,
        }
    }
}

/// An optional header map member.
pub open spec fn headers_field(v: Option<JsonValue>) -> Option<Option<HeadersView>> {
    match v {
        None => Some(None),
        Some(JsonValue::Null) => Some(None),
        Some(JsonValue::Object(es)) => match string_pairs(es@) {
            Some(ps) => Some(Some(ps)),
            None => None,
        },
        Some(_) => None,
    }
}

/// A server of the metadata: a string `server_url` (or `url`) and optional
/// headers.
pub open spec fn server_field(v: JsonValue) -> Option<ServerView> {
    match v {
        JsonValue::Object(es) => match aliased(es@, "server_url"@, "url"@) {
            Some(Some(JsonValue::String(u))) => match headers_field(member(es@, "headers"@)) {
                Some(h) => Some((u@, h)),
                None => None,
            },
            _ => None,
        },
        JsonValue::Array(items) => if 1 <= items@.len() <= 2 {
            match items@[0] {
                JsonValue::String(u) => match headers_field(element(items@, 1)) {
                    Some(h) => Some((u@, h)),
                    None => None,
                },
                _ => None,
            }
        } else {
            None
        },
        _ => None,
    }
}

/// The servers of an object whose members are all servers, by label.
pub open spec fn server_entries(es: Seq<(String, JsonValue)>) -> Option<Seq<(Seq<char>, ServerView)>>
    decreases es.len(),
{
    if es.len() == 0 {
        Some(Seq::empty())
    } else {
        match (server_entries(es.drop_last()), server_field(es.last().1)) {
            (Some(ss), Some(s)) => Some(ss.push((es.last().0@, s))),
            _ => None,
        }
    }
}

/// The `mcp_servers` member: none when absent, else an object of servers.
pub open spec fn servers_field(v: Option<JsonValue>) -> Option<Seq<(Seq<char>, ServerView)>> {
    match v {
        None => Some(Seq::empty()),
        Some(JsonValue::Object(es)) => server_entries(es@),
        Some(_) => None,
    }
}

/// The metadata that a JSON value reads as, if it is readable.
pub open spec fn metadata_of(v: JsonValue) -> Option<McpFunctionMetadataView> {
    match v {
        JsonValue::Object(es) => match (
            servers_field(member(es@, "mcp_servers"@)),
            string_field(member(es@, "server_label"@)),
            aliased(es@, "server_url"@, "url"@),
            headers_field(member(es@, "headers"@)),
        ) {
            (Some(servers), Some(label), Some(url), Some(headers)) => match string_field(url) {
                Some(u) => Some(
                    McpFunctionMetadataView {
                        mcp_servers: servers,
                        server_label: label,
                        server_url: u,
                        headers,
                    },
                ),
                None => None,
            },
            _ => None,
        },
        JsonValue::Array(items) => if items@.len() <= 4 {
            match (
                servers_field(element(items@, 0)),
                string_field(element(items@, 1)),
                string_field(element(items@, 2)),
                headers_field(element(items@, 3)),
            ) {
                (Some(servers), Some(label), Some(url), Some(headers)) => Some(
                    McpFunctionMetadataView {
                        mcp_servers: servers,
                        server_label: label,
                        server_url: url,
                        headers,
                    },
                ),
                _ => None,
            }
        } else {
            None
        },
        _ => None,
    }
}

/// The declarations that metadata names: one per server of `mcp_servers`;
/// without servers, one for `server_label` and `server_url` when both are
/// given, else none.
pub open spec fn params_of_metadata(m: McpFunctionMetadataView) -> Seq<McpToolParamView> {
    if m.mcp_servers.len() == 0 {
        match (m.server_label, m.server_url) {
            (Some(l), Some(u)) => seq![
                McpToolParamView {
                    name: READ_MCP_RESOURCE_TOOL_NAME@,
                    server_label: Some(l),
                    server_url: Some(u),
                    headers: m.headers,
                },
            ],
            _ => Seq::empty(),
        }
    } else {
        m.mcp_servers.map_values(
            |e: (Seq<char>, ServerView)|
                McpToolParamView {
                    name: READ_MCP_RESOURCE_TOOL_NAME@,
                    server_label: Some(e.0),
                    server_url: Some(e.1.0),
                    headers: e.1.1,
                },
        )
    }
}


/// Each declaration that metadata names reads `read_mcp_resource` from the
/// server it lists, with that server's label, URL and headers: without
/// `mcp_servers`, the one given by `server_label` and `server_url` with the
/// metadata's own headers; otherwise one per listed server, in order.
pub proof fn lemma_metadata_declarations(m: McpFunctionMetadataView)
    ensures
        m.mcp_servers.len() == 0 ==> match (m.server_label, m.server_url) {
            (Some(l), Some(u)) => params_of_metadata(m).len() == 1 && params_of_metadata(m)[0].name
                == READ_MCP_RESOURCE_TOOL_NAME@ && params_of_metadata(m)[0].server_label == Some(l)
                && params_of_metadata(m)[0].server_url == Some(u) && params_of_metadata(m)[0].headers
                == m.headers,
            _ => params_of_metadata(m).len() == 0,
        },
        m.mcp_servers.len() > 0 ==> params_of_metadata(m).len() == m.mcp_servers.len() && forall|i: int|
            0 <= i < m.mcp_servers.len() ==> {
                let d = #[trigger] params_of_metadata(m)[i];
                &&& d.name == READ_MCP_RESOURCE_TOOL_NAME@
                &&& d.server_label == Some(m.mcp_servers[i].0)
                &&& d.server_url == Some(m.mcp_servers[i].1.0)
                &&& d.headers == m.mcp_servers[i].1.1
            },
{
}

/// The value a reference points to, if any.
pub open spec fn deref_opt(o: Option<&JsonValue>) -> Option<JsonValue> {
    match o {
        Some(v) => Some(*v),
        None => None,
    }
}

fn read_string_field(v: Option<&JsonValue>) -> (r: Result<Option<String>, ()>)
    ensures
        match r {
            Ok(o) => string_field(deref_opt(v)) == Some(opt_text(o)),
            Err(_) => string_field(deref_opt(v)) is None,
        },
{
    match v {
        None => Ok(None),
        Some(JsonValue::Null) => Ok(None),
        Some(JsonValue::String(s)) => Ok(Some(s.clone())),
        Some(_) => Err(()),
    }
}

fn read_headers_field(v: Option<&JsonValue>) -> (r: Result<Option<Headers>, ()>)
    ensures
        match r {
            Ok(o) => headers_field(deref_opt(v)) == Some(headers_view(o)),
            Err(_) => headers_field(deref_opt(v)) is None,
        },
{
    match v {
        None => Ok(None),
        Some(JsonValue::Null) => Ok(None),
        Some(JsonValue::Object(es)) => {
            let mut out: Headers = Vec::new();
            for i in 0..es.len()
                invariant
                    deref_opt(v) == Some(JsonValue::Object(*es)),
                    string_pairs(es@.take(i as int)) == Some(headers_view(Some(out))->0),
            {
                proof {
                    assert(es@.take(i + 1).drop_last() =~= es@.take(i as int));
                }
                match &es[i].1 {
                    JsonValue::String(s) => {
                        let ghost before = headers_view(Some(out))->0;
                        out.push((es[i].0.clone(), s.clone()));
                        proof {
                            assert(headers_view(Some(out))->0 =~= before.push((es@[i as int].0@, s@)));
                        }
                    },
                    _ => {
                        proof {
                            assert(string_pairs(es@.take(i + 1)) is None);
                            lemma_string_pairs_prefix_none(es@, i + 1);
                        }
                        return Err(());
                    },
                }
            }
            proof {
                assert(es@.take(es@.len() as int) =~= es@);
            }
            Ok(Some(out))
        },
        Some(_) => Err(()),
    }
}

proof fn lemma_string_pairs_prefix_none(es: Seq<(String, JsonValue)>, n: int)
    requires
        0 <= n <= es.len(),
        string_pairs(es.take(n)) is None,
    ensures
        string_pairs(es) is None,
    decreases es.len() - n,
{
    if n < es.len() {
        assert(es.take(n + 1).drop_last() =~= es.take(n));
        lemma_string_pairs_prefix_none(es, n + 1);
    } else {
        assert(es.take(n) =~= es);
    }
}

proof fn lemma_server_entries_prefix_none(es: Seq<(String, JsonValue)>, n: int)
    requires
        0 <= n <= es.len(),
        server_entries(es.take(n)) is None,
    ensures
        server_entries(es) is None,
    decreases es.len() - n,
{
    if n < es.len() {
        assert(es.take(n + 1).drop_last() =~= es.take(n));
        lemma_server_entries_prefix_none(es, n + 1);
    } else {
        assert(es.take(n) =~= es);
    }
}

fn read_aliased<'a>(es: &'a Vec<(String, JsonValue)>, a: &str, b: &str) -> (r: Result<Option<&'a JsonValue>, ()>)
    ensures
        match r {
            Ok(o) => aliased(es@, a@, b@) == Some(deref_opt(o)),
            Err(_) => aliased(es@, a@, b@) is None,
        },
{
    match (find_member(es, a), find_member(es, b)) {
        (Some(_), Some(_)) => Err(()),
        (Some(x), None) => Ok(Some(x)),
        (None, Some(y)) => Ok(Some(y)),
        (None, None) => Ok(None),
    }
}

fn element_ref(items: &Vec<JsonValue>, i: usize) -> (r: Option<&JsonValue>)
    ensures
        deref_opt(r) == element(items@, i as int),
{
    if i < items.len() {
        Some(&items[i])
    } else {
        None
    }
}

fn read_server(v: &JsonValue) -> (r: Option<McpFunctionServer>)
    ensures
        match r {
            Some(s) => server_field(*v) == Some(server_view(s)),
            None => server_field(*v) is None,
        },
{
    match v {
        JsonValue::Object(es) => match read_aliased(es, "server_url", "url") {
            Ok(Some(JsonValue::String(u))) => match read_headers_field(find_member(es, "headers")) {
                Ok(headers) => Some(McpFunctionServer { server_url: u.clone(), headers }),
                Err(_) => None,
            },
            _ => None,
        },
        JsonValue::Array(items) => {
            if items.len() < 1 || items.len() > 2 {
                return None;
            }
            match &items[0] {
                JsonValue::String(u) => match read_headers_field(element_ref(items, 1)) {
                    Ok(headers) => Some(McpFunctionServer { server_url: u.clone(), headers }),
                    Err(_) => None,
                },
                _ => None,
            }
        },
        _ => None,
    }
}

fn read_servers_field(v: Option<&JsonValue>) -> (r: Option<Vec<(String, McpFunctionServer)>>)
    ensures
        match r {
            Some(ss) => servers_field(deref_opt(v)) == Some(
                ss@.map_values(|e: (String, McpFunctionServer)| (e.0@, server_view(e.1))),
            ),
            None => servers_field(deref_opt(v)) is None,
        },
{
    match v {
        None => {
            let out: Vec<(String, McpFunctionServer)> = Vec::new();
            proof {
                assert(out@.map_values(|e: (String, McpFunctionServer)| (e.0@, server_view(e.1)))
                    =~= Seq::<(Seq<char>, ServerView)>::empty());
            }
            Some(out)
        },
        Some(JsonValue::Object(es)) => {
            let mut out: Vec<(String, McpFunctionServer)> = Vec::new();
            for i in 0..es.len()
                invariant
                    deref_opt(v) == Some(JsonValue::Object(*es)),
                    server_entries(es@.take(i as int)) == Some(
                        out@.map_values(|e: (String, McpFunctionServer)| (e.0@, server_view(e.1))),
                    ),
            {
                proof {
                    assert(es@.take(i + 1).drop_last() =~= es@.take(i as int));
                }
                match read_server(&es[i].1) {
                    Some(server) => {
                        let ghost before = out@.map_values(
                            |e: (String, McpFunctionServer)| (e.0@, server_view(e.1)),
                        );
                        let ghost sv = server_view(server);
                        out.push((es[i].0.clone(), server));
                        proof {
                            assert(out@.map_values(
                                |e: (String, McpFunctionServer)| (e.0@, server_view(e.1)),
                            ) =~= before.push((es@[i as int].0@, sv)));
                        }
                    },
                    None => {
                        proof {
                            lemma_server_entries_prefix_none(es@, i + 1);
                        }
                        return None;
                    },
                }
            }
            proof {
                assert(es@.take(es@.len() as int) =~= es@);
            }
            Some(out)
        },
        Some(_) => None,
    }
}

impl McpFunctionMetadata {
    /// Reads the metadata from JSON (see `metadata_of`).
    pub fn from_json(v: &JsonValue) -> (r: Option<Self>)
        ensures
            match r {
                Some(m) => metadata_of(*v) == Some(m@),
                None => metadata_of(*v) is None,
            },
    {
        match v {
            JsonValue::Object(es) => {
                let servers = read_servers_field(find_member(es, "mcp_servers"));
                let label = read_string_field(find_member(es, "server_label"));
                let url = read_aliased(es, "server_url", "url");
                let headers = read_headers_field(find_member(es, "headers"));
                match (servers, label, url, headers) {
                    (Some(mcp_servers), Ok(server_label), Ok(url), Ok(headers)) => match read_string_field(url) {
                        Ok(server_url) => Some(McpFunctionMetadata { mcp_servers, server_label, server_url, headers }),
                        Err(_) => None,
                    },
                    _ => None,
                }
            },
            JsonValue::Array(items) => {
                if items.len() > 4 {
                    return None;
                }
                let servers = read_servers_field(element_ref(items, 0));
                let label = read_string_field(element_ref(items, 1));
                let url = read_string_field(element_ref(items, 2));
                let headers = read_headers_field(element_ref(items, 3));
                match (servers, label, url, headers) {
                    (Some(mcp_servers), Ok(server_label), Ok(server_url), Ok(headers)) => Some(
                        McpFunctionMetadata { mcp_servers, server_label, server_url, headers },
                    ),
                    _ => None,
                }
            },
            _ => None,
        }
    }
}

fn read_resource_name() -> (n: NonEmptyToolName)
    ensures
        n@ == READ_MCP_RESOURCE_TOOL_NAME@,
{
    proof {
        reveal_strlit("read_mcp_resource");
    }
    match NonEmptyToolName::new(READ_MCP_RESOURCE_TOOL_NAME) {
        Some(n) => n,
        None => {
            proof {
                assert(false);
            }
            NonEmptyToolName::new("read_mcp_resource").unwrap()
        },
    }
}

/// The `read_mcp_resource` declarations that the metadata names (see
/// `params_of_metadata`).
pub fn mcp_params_from_metadata(metadata: McpFunctionMetadata) -> (r: Vec<McpToolParam>)
    ensures
        param_views(r@) == params_of_metadata(metadata@),
{
    let ghost mv = metadata@;
    let name = read_resource_name();
    let McpFunctionMetadata { mcp_servers, server_label, server_url, headers } = metadata;
    let mut params: Vec<McpToolParam> = Vec::new();
    if mcp_servers.len() == 0 {
        match (server_label, server_url) {
            (Some(label), Some(url)) => {
                params.push(
                    McpToolParam {
                        name,
                        server_label: Some(label),
                        server_url: Some(url),
                        headers,
                    },
                );
                proof {
                    assert(param_views(params@) =~= params_of_metadata(mv));
                }
            },
            _ => {
                proof {
                    assert(param_views(params@) =~= params_of_metadata(mv));
                }
            },
        }
        return params;
    }
    let ghost servers = mcp_servers@;
    for entry in it: mcp_servers.into_iter()
        invariant
            it.seq() == servers,
            mv.mcp_servers == servers.map_values(|e: (String, McpFunctionServer)| (e.0@, server_view(e.1))),
            name@ == READ_MCP_RESOURCE_TOOL_NAME@,
            params@.len() == it.index(),
            forall|i: int|
                0 <= i < it.index() ==> (#[trigger] params@[i])@ == (McpToolParamView {
                    name: READ_MCP_RESOURCE_TOOL_NAME@,
                    server_label: Some(servers[i].0@),
                    server_url: Some(servers[i].1.server_url@),
                    headers: headers_view(servers[i].1.headers),
                }),
    {
        let (label, server) = entry;
        params.push(
            McpToolParam {
                name: name.duplicate(),
                server_label: Some(label),
                server_url: Some(server.server_url),
                headers: server.headers,
            },
        );
    }
    proof {
        assert(param_views(params@) =~= params_of_metadata(mv));
    }
    params
}

/// The declarations a function declaration's `metadata` member names: none
/// without the member or when it is not readable metadata.
pub open spec fn params_of_function_metadata(extra: Seq<(String, JsonValue)>) -> Seq<McpToolParamView> {
    match member(extra, "metadata"@) {
        Some(v) => match metadata_of(v) {
            Some(m) => params_of_metadata(m),
            None => Seq::empty(),
        },
        None => Seq::empty(),
    }
}

fn mcp_params_from_function(p: &FunctionToolParam) -> (r: Vec<McpToolParam>)
    ensures
        param_views(r@) == params_of_function_metadata(p.extra@),
{
    let empty: Vec<McpToolParam> = Vec::new();
    proof {
        assert(param_views(empty@) =~= Seq::<McpToolParamView>::empty());
    }
    match find_member(&p.extra, "metadata") {
        None => empty,
        Some(v) => match McpFunctionMetadata::from_json(v) {
            Some(m) => mcp_params_from_metadata(m),
            None => empty,
        },
    }
}

/// For Codex's `read_mcp_resource` function declaration, the MCP declarations
/// its metadata names; `None` for any other function.
pub fn maybe_mcp_function(p: &FunctionToolParam) -> (r: Option<Vec<McpToolParam>>)
    ensures
        p.name@ == READ_MCP_RESOURCE_TOOL_NAME@ ==> (r matches Some(ps) && param_views(ps@)
            == params_of_function_metadata(p.extra@)),
        p.name@ != READ_MCP_RESOURCE_TOOL_NAME@ ==> r is None,
{
    if crate::text::str_eq(p.name.as_str(), READ_MCP_RESOURCE_TOOL_NAME) {
        Some(mcp_params_from_function(p))
    } else {
        None
    }
}

} // verus!
