//! Admission of request-declared MCP servers (server URL checks against a host
//! allowlist) and the pool of connected MCP clients.

use vstd::hash_map::StringHashMap;
use vstd::prelude::*;

use crate::text::{cleaned, clean_string, eq_ascii_ci, eq_ignore_ascii_case, opt_text};
use crate::tools::{copy_headers, headers_view, Headers, McpToolParam, McpToolParamView};

pub use crate::text::parse_allowed_hosts;

verus! {

/// The host part of a parsed URL, with the text `to_string` gives for an
/// address.
#[derive(Debug)]
pub enum RequestHost {
    Domain(String),
    Ipv4 { octets: [u8; 4], text: String },
    Ipv6 { segments: [u16; 8], text: String },
}

/// The parts of a parsed URL that admission reads.
#[derive(Debug)]
pub struct UrlParts {
    pub scheme: String,
    pub username: String,
    pub password: Option<String>,
    pub host: Option<RequestHost>,
}

#[verifier::external_type_specification]
#[verifier::external_body]
#[verifier::reject_recursive_types(S)]
pub struct ExUrlHost<S>(url::Host<S>);

/// What `url::Url::parse` makes of `text`: the URL's parts, or the text of
/// its parse error.
pub uninterp spec fn spec_parse_url(text: Seq<char>) -> Result<UrlParts, String>;

/// Carries a `url::Host` over into a `RequestHost`, with the text of an address.
#[verifier::external_body]
fn host_parts(host: url::Host<&str>) -> RequestHost {
    match host {
        url::Host::Domain(d) => RequestHost::Domain(d.to_owned()),
        url::Host::Ipv4(a) => RequestHost::Ipv4 { octets: a.octets(), text: a.to_string() },
        url::Host::Ipv6(a) => RequestHost::Ipv6 { segments: a.segments(), text: a.to_string() },
    }
}

/// Parses `text` with `url::Url::parse`. Trusted: the parts, or the error's
/// text, are only known to be those `spec_parse_url` names for `text`.
#[verifier::external_body]
fn parse_url(text: &str) -> (r: Result<UrlParts, String>)
    ensures
        r == spec_parse_url(text@),
{
    url::Url::parse(text).map(|u| UrlParts {
        scheme: u.scheme().to_owned(),
        username: u.username().to_owned(),
        password: u.password().map(str::to_owned),
        host: u.host().map(host_parts),
    }).map_err(|e| e.to_string())
}

/// Whether `host` equals one of `allowed`, ignoring ASCII case.
pub open spec fn listed(allowed: Seq<Seq<char>>, host: Seq<char>) -> bool {
    exists|i: int| 0 <= i < allowed.len() && eq_ascii_ci(#[trigger] allowed[i], host)
}

/// Whether a request may name this host: `localhost` and loopback addresses
/// always, other hosts when the allowlist names them.
pub open spec fn host_admitted(host: RequestHost, allowed: Seq<Seq<char>>) -> bool {
    match host {
        RequestHost::Domain(d) => eq_ascii_ci(d@, "localhost"@) || listed(allowed, d@),
        RequestHost::Ipv4 { octets, text } => octets@[0] == 127 || listed(allowed, text@),
        RequestHost::Ipv6 { segments, text } => segments@ == seq![0u16, 0, 0, 0, 0, 0, 0, 1]
            || listed(allowed, text@),
    }
}

/// Whether `host` equals one of `allowed`, ignoring ASCII case.
pub fn host_allowed_by_env(host: &str, allowed: &Vec<String>) -> (r: bool)
    ensures
        r == listed(crate::text::views(allowed@), host@),
{
    for i in 0..allowed.len()
        invariant
            forall|j: int| 0 <= j < i ==> !eq_ascii_ci(#[trigger] allowed@[j]@, host@),
    {
        if eq_ignore_ascii_case(allowed[i].as_str(), host) {
            assert(crate::text::views(allowed@)[i as int] == allowed@[i as int]@);
            return true;
        }
    }
    proof {
        if listed(crate::text::views(allowed@), host@) {
            let i = choose|i: int|
                0 <= i < allowed@.len() && eq_ascii_ci(#[trigger] crate::text::views(allowed@)[i], host@);
            assert(eq_ascii_ci(allowed@[i]@, host@));
        }
    }
    false
}

/// Whether a request may name `host` (see `host_admitted`).
pub fn is_allowed_request_host(host: &RequestHost, allowed: &Vec<String>) -> (r: bool)
    ensures
        r == host_admitted(*host, crate::text::views(allowed@)),
{
    match host {
        RequestHost::Domain(d) => eq_ignore_ascii_case(d.as_str(), "localhost")
            || host_allowed_by_env(d.as_str(), allowed),
        RequestHost::Ipv4 { octets, text } => octets[0] == 127 || host_allowed_by_env(
            text.as_str(),
            allowed,
        ),
        RequestHost::Ipv6 { segments, text } => {
            let loopback = segments[0] == 0 && segments[1] == 0 && segments[2] == 0 && segments[3] == 0
                && segments[4] == 0 && segments[5] == 0 && segments[6] == 0 && segments[7] == 1;
            proof {
                if loopback {
                    assert(segments@ =~= seq![0u16, 0, 0, 0, 0, 0, 0, 1]);
                } else if segments@ == seq![0u16, 0, 0, 0, 0, 0, 0, 1] {
                    assert(segments@[7] == 1);
                }
            }
            loopback || host_allowed_by_env(text.as_str(), allowed)
        },
    }
}

/// The message for a host that the allowlist does not name.
pub open spec fn host_not_allowed_text() -> Seq<char> {
    "MCP server_url host is not allowed; set AGENTIC_MCP_ALLOWED_HOSTS to allow it"@
}

/// The verdict on a request's server URL `value`, given what parsing it gave:
/// the URL itself when admitted, or the reason it is refused.
pub open spec fn url_verdict(value: Seq<char>, parsed: Result<UrlParts, String>, allowed: Seq<Seq<char>>) -> Result<
    Seq<char>,
    Seq<char>,
> {
    match parsed {
        Err(e) => Err("invalid URL: "@ + e@),
        Ok(u) => if !(u.scheme@ == "http"@ || u.scheme@ == "https"@) {
            Err("URL scheme must be http or https"@)
        } else if u.username@.len() > 0 || u.password is Some {
            Err("URL must not include credentials"@)
        } else {
            match u.host {
                None => Err("URL must include a host"@),
                Some(h) => if host_admitted(h, allowed) {
                    Ok(value)
                } else {
                    Err(host_not_allowed_text())
                },
            }
        },
    }
}

/// `localhost` (in any ASCII case) and loopback addresses are admitted
/// whatever the allowlist says.
pub proof fn lemma_loopback_always_admitted(host: RequestHost, allowed: Seq<Seq<char>>)
    requires
        match host {
            RequestHost::Domain(d) => eq_ascii_ci(d@, "localhost"@),
            RequestHost::Ipv4 { octets, .. } => octets@[0] == 127,
            RequestHost::Ipv6 { segments, .. } => segments@ == seq![0u16, 0, 0, 0, 0, 0, 0, 1],
        },
    ensures
        host_admitted(host, allowed),
{
}

/// The text by which the allowlist names a host: the domain, or the
/// address as `to_string` writes it.
pub open spec fn host_text(host: RequestHost) -> Seq<char> {
    match host {
        RequestHost::Domain(d) => d@,
        RequestHost::Ipv4 { text, .. } => text@,
        RequestHost::Ipv6 { text, .. } => text@,
    }
}

/// Any host, of any kind, that the allowlist names (ignoring ASCII case) is
/// admitted; and an http(s) URL without credentials whose host it names is
/// accepted as given.
pub proof fn lemma_listed_host_admitted(value: Seq<char>, parsed: Result<UrlParts, String>, host: RequestHost, allowed: Seq<Seq<char>>)
    requires
        listed(allowed, host_text(host)),
    ensures
        host_admitted(host, allowed),
        parsed matches Ok(u) && (u.scheme@ == "http"@ || u.scheme@ == "https"@) && u.username@.len() == 0
            && u.password is None && u.host == Some(host) ==> url_verdict(value, parsed, allowed) == Ok::<
            Seq<char>,
            Seq<char>,
        >(value),
{
}

/// Adding hosts to the allowlist never refuses a host that was admitted.
pub proof fn lemma_allowlist_monotone(host: RequestHost, allowed: Seq<Seq<char>>, more: Seq<Seq<char>>)
    requires
        host_admitted(host, allowed),
    ensures
        host_admitted(host, allowed + more),
{
    let all = allowed + more;
    let text = match host {
        RequestHost::Domain(d) => d@,
        RequestHost::Ipv4 { text, .. } => text@,
        RequestHost::Ipv6 { text, .. } => text@,
    };
    if listed(allowed, text) {
        let i = choose|i: int| 0 <= i < allowed.len() && eq_ascii_ci(#[trigger] allowed[i], text);
        assert(all[i] == allowed[i]);
    }
}

/// A URL that admission accepts is the URL given, with an http(s) scheme, no
/// credentials, and an admitted host.
pub proof fn lemma_admitted_url_shape(value: Seq<char>, parsed: Result<UrlParts, String>, allowed: Seq<Seq<char>>)
    requires
        url_verdict(value, parsed, allowed) is Ok,
    ensures
        url_verdict(value, parsed, allowed) == Ok::<Seq<char>, Seq<char>>(value),
        parsed matches Ok(u) && (u.scheme@ == "http"@ || u.scheme@ == "https"@) && u.username@.len() == 0
            && u.password is None && (u.host matches Some(h) && host_admitted(h, allowed)),
{
}

/// The view of a result of two strings.
pub open spec fn text_result(r: Result<String, String>) -> Result<Seq<char>, Seq<char>> {
    match r {
        Ok(s) => Ok(s@),
        Err(e) => Err(e@),
    }
}

/// Decides on a request's server URL from what parsing it gave (see
/// `url_verdict`).
pub fn check_request_url(value: &str, parsed: Result<UrlParts, String>, allowed: &Vec<String>) -> (r: Result<String, String>)
    ensures
        text_result(r) == url_verdict(value@, parsed, crate::text::views(allowed@)),
{
    match parsed {
        Err(e) => Err("invalid URL: ".to_owned().concat(e.as_str())),
        Ok(u) => {
            if !(crate::text::str_eq(u.scheme.as_str(), "http") || crate::text::str_eq(u.scheme.as_str(), "https")) {
                return Err("URL scheme must be http or https".to_owned());
            }
            if !u.username.as_str().is_empty() || u.password.is_some() {
                return Err("URL must not include credentials".to_owned());
            }
            match u.host {
                None => Err("URL must include a host".to_owned()),
                Some(h) => {
                    if is_allowed_request_host(&h, allowed) {
                        Ok(value.to_owned())
                    } else {
                        Err(
                            "MCP server_url host is not allowed; set AGENTIC_MCP_ALLOWED_HOSTS to allow it".to_owned(),
                        )
                    }
                },
            }
        },
    }
}

/// Parses a request's server URL and decides on it: `Ok` with the URL when its
/// scheme is http(s), it has no credentials and its host is admitted.
pub fn validate_request_server_url(value: &str, allowed: &Vec<String>) -> (r: Result<String, String>)
    ensures
        text_result(r) == url_verdict(value@, spec_parse_url(value@), crate::text::views(allowed@)),
{
    let parsed = parse_url(value);
    check_request_url(value, parsed, allowed)
}


/// How to reach an MCP server: over streamable HTTP, or by spawning a local
/// process that speaks MCP over stdin/stdout.
#[derive(Debug)]
pub enum McpServerEntry {
    Http { url: String, headers: Option<Headers> },
    Stdio {
        command: String,
        args: Vec<String>,
        env: Option<Headers>,
        cwd: Option<String>,
    },
}

/// An MCP server entry as plain text.
pub enum McpServerEntryView {
    Http { url: Seq<char>, headers: Option<Seq<(Seq<char>, Seq<char>)>> },
    Stdio {
        command: Seq<char>,
        args: Seq<Seq<char>>,
        env: Option<Seq<(Seq<char>, Seq<char>)>>,
        cwd: Option<Seq<char>>,
    },
}

impl View for McpServerEntry {
    type V = McpServerEntryView;

    open spec fn view(&self) -> McpServerEntryView {
        match self {
            McpServerEntry::Http { url, headers } => McpServerEntryView::Http {
                url: url@,
                headers: headers_view(*headers),
            },
            McpServerEntry::Stdio { command, args, env, cwd } => McpServerEntryView::Stdio {
                command: command@,
                args: crate::text::views(args@),
                env: headers_view(*env),
                cwd: opt_text(*cwd),
            },
        }
    }
}

/// The server a request's MCP declaration names, keyed by its label: only an
/// HTTP server, with a non-blank label and an admitted URL.
pub open spec fn declared_server(p: McpToolParamView, allowed: Seq<Seq<char>>) -> Option<
    (Seq<char>, McpServerEntryView),
> {
    match cleaned(p.server_label) {
        None => None,
        Some(label) => match cleaned(p.server_url) {
            None => None,
            Some(url) => match url_verdict(url, spec_parse_url(url), allowed) {
                Err(_) => None,
                Ok(u) => Some((label, McpServerEntryView::Http { url: u, headers: p.headers })),
            },
        },
    }
}

/// The server entry for an MCP declaration in a request (see `declared_server`).
pub fn server_entry_from_param(param: &McpToolParam, allowed: &Vec<String>) -> (r: Option<(String, McpServerEntry)>)
    ensures
        match r {
            Some((label, entry)) => declared_server(param@, crate::text::views(allowed@)) == Some(
                (label@, entry@),
            ),
            None => declared_server(param@, crate::text::views(allowed@)) is None,
        },
{
    let label = match param.server_label.as_ref() {
        Some(l) => clean_string(Some(l.as_str())),
        None => None,
    };
    let label = match label {
        Some(l) => l,
        None => return None,
    };
    let url = match param.server_url.as_ref() {
        Some(u) => clean_string(Some(u.as_str())),
        None => None,
    };
    let url = match url {
        Some(u) => u,
        None => return None,
    };
    match validate_request_server_url(url.as_str(), allowed) {
        Ok(u) => Some((label, McpServerEntry::Http { url: u, headers: copy_headers(&param.headers) })),
        Err(_) => None,
    }
}


/// The server a declaration names is reached at its trimmed URL, under its
/// trimmed label, and with exactly the headers it declares.
pub proof fn lemma_declared_server_fields(p: McpToolParamView, allowed: Seq<Seq<char>>)
    ensures
        declared_server(p, allowed) matches Some((label, McpServerEntryView::Http { url, headers })) ==> {
            &&& cleaned(p.server_label) == Some(label)
            &&& cleaned(p.server_url) == Some(url)
            &&& headers == p.headers
        },
{
}

/// A request's MCP declaration only ever names an HTTP server: nothing it
/// says can make the gateway spawn a local process.
pub proof fn lemma_declared_server_is_http(p: McpToolParamView, allowed: Seq<Seq<char>>)
    ensures
        declared_server(p, allowed) matches Some((_, e)) ==> e is Http,
{
}

/// Every server the MCP declarations of a request name is an HTTP server
/// with an admitted URL, under a non-blank label.
pub proof fn lemma_declared_servers_are_http(ps: Seq<McpToolParamView>, allowed: Seq<Seq<char>>)
    ensures
        forall|k: Seq<char>| #[trigger]
            declared_servers(ps, allowed).contains_key(k) ==> declared_servers(ps, allowed)[k] is Http,
    decreases ps.len(),
{
    if ps.len() > 0 {
        lemma_declared_servers_are_http(ps.drop_last(), allowed);
    }
}

/// The servers that a list of MCP declarations names, by label; a later
/// declaration of a label replaces an earlier one.
pub open spec fn declared_servers(ps: Seq<McpToolParamView>, allowed: Seq<Seq<char>>) -> Map<
    Seq<char>,
    McpServerEntryView,
>
    decreases ps.len(),
{
    if ps.len() == 0 {
        Map::empty()
    } else {
        let m = declared_servers(ps.drop_last(), allowed);
        match declared_server(ps.last(), allowed) {
            Some((label, entry)) => m.insert(label, entry),
            None => m,
        }
    }
}

/// The views of a list of MCP declarations.
pub open spec fn param_views(ps: Seq<McpToolParam>) -> Seq<McpToolParamView> {
    ps.map_values(|p: McpToolParam| p@)
}

/// `entries` lists each label once, and exactly the map `m`.
pub open spec fn lists_exactly(entries: Seq<(String, McpServerEntry)>, m: Map<Seq<char>, McpServerEntryView>) -> bool {
    &&& forall|i: int, j: int|
        0 <= i < j < entries.len() ==> (#[trigger] entries[i]).0@ != (#[trigger] entries[j]).0@
    &&& forall|i: int|
        0 <= i < entries.len() ==> m.contains_key((#[trigger] entries[i]).0@) && m[entries[i].0@]
            == entries[i].1@
    &&& forall|k: Seq<char>| #[trigger]
        m.contains_key(k) ==> exists|i: int| 0 <= i < entries.len() && (#[trigger] entries[i]).0@ == k
}

fn find_label(entries: &Vec<(String, McpServerEntry)>, label: &str) -> (r: Option<usize>)
    ensures
        match r {
            Some(i) => i < entries@.len() && entries@[i as int].0@ == label@,
            None => forall|i: int| 0 <= i < entries@.len() ==> (#[trigger] entries@[i]).0@ != label@,
        },
{
    for i in 0..entries.len()
        invariant
            forall|j: int| 0 <= j < i ==> (#[trigger] entries@[j]).0@ != label@,
    {
        if crate::text::str_eq(entries[i].0.as_str(), label) {
            return Some(i);
        }
    }
    None
}

/// The servers that the MCP declarations of a request name, each label once
/// (see `declared_servers`).
pub fn server_entries_from_params(params: &Vec<McpToolParam>, allowed: &Vec<String>) -> (r: Vec<(String, McpServerEntry)>)
    ensures
        lists_exactly(r@, declared_servers(param_views(params@), crate::text::views(allowed@))),
{
    let ghost al = crate::text::views(allowed@);
    let mut out: Vec<(String, McpServerEntry)> = Vec::new();
    for i in 0..params.len()
        invariant
            al == crate::text::views(allowed@),
            lists_exactly(out@, declared_servers(param_views(params@.take(i as int)), al)),
    {
        let ghost before = declared_servers(param_views(params@.take(i as int)), al);
        proof {
            assert(param_views(params@.take(i + 1)).drop_last() =~= param_views(params@.take(i as int)));
            assert(param_views(params@.take(i + 1)).last() == params@[i as int]@);
        }
        match server_entry_from_param(&params[i], allowed) {
            None => {},
            Some((label, entry)) => {
                let ghost l = label@;
                let ghost e = entry@;
                let ghost after = before.insert(l, e);
                match find_label(&out, label.as_str()) {
                    Some(k) => {
                        let ghost old_out = out@;
                        out.set(k, (label, entry));
                        proof {
                            assert forall|a: int, b: int|
                                0 <= a < b < out@.len() implies (#[trigger] out@[a]).0@ != (
                            #[trigger] out@[b]).0@ by {
                                if a != k && b != k {
                                    assert(old_out[a] == out@[a] && old_out[b] == out@[b]);
                                } else if a == k {
                                    assert(old_out[b] == out@[b]);
                                    assert(old_out[k as int].0@ == l);
                                } else {
                                    assert(old_out[a] == out@[a]);
                                    assert(old_out[k as int].0@ == l);
                                }
                            }
                            assert forall|a: int| 0 <= a < out@.len() implies after.contains_key(
                                (#[trigger] out@[a]).0@,
                            ) && after[out@[a].0@] == out@[a].1@ by {
                                if a != k {
                                    assert(old_out[a] == out@[a]);
                                    assert(old_out[a].0@ != old_out[k as int].0@);
                                }
                            }
                            assert forall|key: Seq<char>| #[trigger]
                                after.contains_key(key) implies exists|a: int|
                                0 <= a < out@.len() && (#[trigger] out@[a]).0@ == key by {
                                if key == l {
                                    assert(out@[k as int].0@ == key);
                                } else {
                                    let a = choose|a: int| 0 <= a < old_out.len() && (#[trigger] old_out[a]).0@ == key;
                                    assert(a != k);
                                    assert(out@[a] == old_out[a]);
                                }
                            }
                        }
                    },
                    None => {
                        let ghost old_out = out@;
                        out.push((label, entry));
                        proof {
                            assert forall|a: int| 0 <= a < old_out.len() implies out@[a] == old_out[a] by {}
                            assert forall|a: int, b: int|
                                0 <= a < b < out@.len() implies (#[trigger] out@[a]).0@ != (
                            #[trigger] out@[b]).0@ by {
                                if b == old_out.len() {
                                    assert(out@[a] == old_out[a]);
                                } else {
                                    assert(out@[a] == old_out[a] && out@[b] == old_out[b]);
                                }
                            }
                            assert forall|a: int| 0 <= a < out@.len() implies after.contains_key(
                                (#[trigger] out@[a]).0@,
                            ) && after[out@[a].0@] == out@[a].1@ by {
                                if a < old_out.len() {
                                    assert(out@[a] == old_out[a]);
                                }
                            }
                            assert forall|key: Seq<char>| #[trigger]
                                after.contains_key(key) implies exists|a: int|
                                0 <= a < out@.len() && (#[trigger] out@[a]).0@ == key by {
                                if key == l {
                                    assert(out@[old_out.len() as int].0@ == key);
                                } else {
                                    let a = choose|a: int| 0 <= a < old_out.len() && (#[trigger] old_out[a]).0@ == key;
                                    assert(out@[a] == old_out[a]);
                                }
                            }
                        }
                    },
                }
            },
        }
    }
    proof {
        assert(params@.take(params@.len() as int) =~= params@);
    }
    out
}


/// The clients and the connection error texts, by label, that recording the
/// outcomes of connecting servers in order gives; an outcome whose label is
/// already recorded is skipped.
pub open spec fn recorded<C>(outcomes: Seq<(String, Result<C, String>)>) -> (
    Map<Seq<char>, C>,
    Map<Seq<char>, Seq<char>>,
)
    decreases outcomes.len(),
{
    if outcomes.len() == 0 {
        (Map::empty(), Map::empty())
    } else {
        let prev = recorded(outcomes.drop_last());
        let label = outcomes.last().0@;
        if prev.0.contains_key(label) || prev.1.contains_key(label) {
            prev
        } else {
            match outcomes.last().1 {
                Ok(c) => (prev.0.insert(label, c), prev.1),
                Err(e) => (prev.0, prev.1.insert(label, e@)),
            }
        }
    }
}

/// Whether some outcome is for the server `label`.
pub open spec fn configures<C>(outcomes: Seq<(String, Result<C, String>)>, label: Seq<char>) -> bool {
    exists|i: int| 0 <= i < outcomes.len() && (#[trigger] outcomes[i]).0@ == label
}

/// With each server configured once (as the keys of a configuration map),
/// recording the outcomes gives each server its client when it connected and
/// its error text when it failed, never both, whatever the other servers
/// did; a label that is not configured has neither.
pub proof fn lemma_outcomes_recorded<C>(outcomes: Seq<(String, Result<C, String>)>)
    requires
        forall|i: int, j: int|
            0 <= i < j < outcomes.len() ==> (#[trigger] outcomes[i]).0@ != (#[trigger] outcomes[j]).0@,
    ensures
        forall|i: int|
            0 <= i < outcomes.len() ==> match (#[trigger] outcomes[i]).1 {
                Ok(c) => recorded(outcomes).0.contains_key(outcomes[i].0@) && recorded(outcomes).0[outcomes[i].0@]
                    == c && !recorded(outcomes).1.contains_key(outcomes[i].0@),
                Err(e) => recorded(outcomes).1.contains_key(outcomes[i].0@) && recorded(outcomes).1[outcomes[i].0@]
                    == e@ && !recorded(outcomes).0.contains_key(outcomes[i].0@),
            },
        forall|k: Seq<char>|
            !configures(outcomes, k) ==> !(#[trigger] recorded(outcomes).0.contains_key(k))
                && !recorded(outcomes).1.contains_key(k),
    decreases outcomes.len(),
{
    if outcomes.len() > 0 {
        let n = outcomes.len() - 1;
        let rest = outcomes.drop_last();
        assert forall|i: int, j: int| 0 <= i < j < rest.len() implies (#[trigger] rest[i]).0@ != (
        #[trigger] rest[j]).0@ by {
            assert(rest[i] == outcomes[i] && rest[j] == outcomes[j]);
        }
        lemma_outcomes_recorded(rest);
        let label = outcomes[n].0@;
        assert(!configures(rest, label)) by {
            if configures(rest, label) {
                let i = choose|i: int| 0 <= i < rest.len() && (#[trigger] rest[i]).0@ == label;
                assert(rest[i] == outcomes[i]);
            }
        }
        let prev = recorded(rest);
        assert(!prev.0.contains_key(label) && !prev.1.contains_key(label));
        assert(recorded(outcomes) == match outcomes[n].1 {
            Ok(c) => (prev.0.insert(label, c), prev.1),
            Err(e) => (prev.0, prev.1.insert(label, e@)),
        });
        assert forall|i: int| 0 <= i < outcomes.len() implies match (#[trigger] outcomes[i]).1 {
            Ok(c) => recorded(outcomes).0.contains_key(outcomes[i].0@) && recorded(outcomes).0[outcomes[i].0@]
                == c && !recorded(outcomes).1.contains_key(outcomes[i].0@),
            Err(e) => recorded(outcomes).1.contains_key(outcomes[i].0@) && recorded(outcomes).1[outcomes[i].0@]
                == e@ && !recorded(outcomes).0.contains_key(outcomes[i].0@),
        } by {
            if i < n {
                assert(rest[i] == outcomes[i]);
                assert(outcomes[i].0@ != label);
            }
        }
        assert forall|k: Seq<char>| !configures(outcomes, k) implies !(#[trigger] recorded(
            outcomes,
        ).0.contains_key(k)) && !recorded(outcomes).1.contains_key(k) by {
            assert(k != label) by {
                assert(outcomes[n].0@ == label);
            }
            assert(!configures(rest, k)) by {
                if configures(rest, k) {
                    let i = choose|i: int| 0 <= i < rest.len() && (#[trigger] rest[i]).0@ == k;
                    assert(rest[i] == outcomes[i]);
                }
            }
        }
    }
}

/// The MCP servers a request can reach: the clients that connected, by
/// server label, and the error text of each server that failed to connect.
#[verifier::reject_recursive_types(C)]
pub struct McpClientPool<C> {
    clients: StringHashMap<C>,
    connection_errors: StringHashMap<String>,
    labels: Vec<String>,
}

impl<C> McpClientPool<C> {
    /// The connected clients, by server label.
    pub closed spec fn clients(&self) -> Map<Seq<char>, C> {
        self.clients@
    }

    /// The connection error text of each server that failed, by label.
    pub closed spec fn errors(&self) -> Map<Seq<char>, Seq<char>> {
        self.connection_errors@.map_values(|e: String| e@)
    }

    /// The labels of the connected servers, in the order they connected.
    pub closed spec fn connected_labels(&self) -> Seq<Seq<char>> {
        crate::text::views(self.labels@)
    }

    /// Each label is listed once, the listed labels are exactly the connected
    /// ones, and no server is both connected and failed.
    pub closed spec fn wf(&self) -> bool {
        &&& forall|i: int, j: int|
            0 <= i < j < self.labels@.len() ==> (#[trigger] self.labels@[i])@ != (
            #[trigger] self.labels@[j])@
        &&& forall|i: int|
            0 <= i < self.labels@.len() ==> self.clients@.contains_key((#[trigger] self.labels@[i])@)
        &&& forall|k: Seq<char>| #[trigger]
            self.clients@.contains_key(k) ==> exists|i: int|
                0 <= i < self.labels@.len() && (#[trigger] self.labels@[i])@ == k
        &&& forall|k: Seq<char>|
            !(#[trigger] self.clients@.contains_key(k) && self.connection_errors@.contains_key(k))
    }

    /// The facts `wf` gives about the public views.
    pub proof fn lemma_wf(&self)
        requires
            self.wf(),
        ensures
            self.connected_labels().no_duplicates(),
            forall|k: Seq<char>| #[trigger]
                self.clients().contains_key(k) <==> self.connected_labels().contains(k),
            forall|k: Seq<char>|
                !(#[trigger] self.clients().contains_key(k) && self.errors().contains_key(k)),
    {
        let ls = self.connected_labels();
        assert forall|i: int, j: int| 0 <= i < ls.len() && 0 <= j < ls.len() && i != j implies ls[i]
            != ls[j] by {
            if i < j {
                assert(self.labels@[i]@ != self.labels@[j]@);
            } else {
                assert(self.labels@[j]@ != self.labels@[i]@);
            }
        }
        assert forall|k: Seq<char>| #[trigger]
            self.clients().contains_key(k) <==> ls.contains(k) by {
            if self.clients().contains_key(k) {
                let i = choose|i: int| 0 <= i < self.labels@.len() && (#[trigger] self.labels@[i])@ == k;
                assert(ls[i] == k);
            }
            if ls.contains(k) {
                let i = choose|i: int| 0 <= i < ls.len() && ls[i] == k;
                assert(self.clients@.contains_key(self.labels@[i]@));
            }
        }
    }

    /// Recording a connected client makes it the client of its label; the
    /// label has no connection error.
    pub proof fn lemma_recorded_client_found(before: Self, after: Self, label: Seq<char>, c: C)
        requires
            !before.errors().contains_key(label),
            after.clients() == before.clients().insert(label, c),
            after.errors() == before.errors(),
        ensures
            after.clients().contains_key(label),
            after.clients()[label] == c,
            !after.errors().contains_key(label),
            forall|k: Seq<char>| k != label ==> #[trigger] after.clients().contains_key(k) == before.clients().contains_key(k),
    {
    }

    /// Recording a failed connection makes its text the error of its label;
    /// the label has no client.
    pub proof fn lemma_recorded_error_found(before: Self, after: Self, label: Seq<char>, e: Seq<char>)
        requires
            !before.clients().contains_key(label),
            after.clients() == before.clients(),
            after.errors() == before.errors().insert(label, e),
        ensures
            after.errors().contains_key(label),
            after.errors()[label] == e,
            !after.clients().contains_key(label),
    {
    }

    /// A pool with no servers.
    pub fn new() -> (r: Self)
        ensures
            r.wf(),
            r.clients() == Map::<Seq<char>, C>::empty(),
            r.errors() == Map::<Seq<char>, Seq<char>>::empty(),
            r.connected_labels() == Seq::<Seq<char>>::empty(),
    {
        let r = McpClientPool {
            clients: StringHashMap::new(),
            connection_errors: StringHashMap::new(),
            labels: Vec::new(),
        };
        proof {
            assert(r.errors() =~= Map::<Seq<char>, Seq<char>>::empty());
            assert(r.connected_labels() =~= Seq::<Seq<char>>::empty());
        }
        r
    }

    /// The pool for the outcomes of connecting the configured servers, in
    /// order (see `recorded`).
    pub fn from_outcomes(outcomes: Vec<(String, Result<C, String>)>) -> (r: Self)
        ensures
            r.wf(),
            r.clients() == recorded(outcomes@).0,
            r.errors() == recorded(outcomes@).1,
    {
        let ghost os = outcomes@;
        let mut pool = Self::new();
        for entry in it: outcomes.into_iter()
            invariant
                it.seq() == os,
                pool.wf(),
                pool.clients() == recorded(os.take(it.index() as int)).0,
                pool.errors() == recorded(os.take(it.index() as int)).1,
        {
            proof {
                assert(os.take(it.index() + 1).drop_last() =~= os.take(it.index() as int));
            }
            let (label, result) = entry;
            if pool.get(label.as_str()).is_none() && pool.connection_error(label.as_str()).is_none() {
                pool.record_connection(label, result);
            }
        }
        proof {
            assert(os.take(os.len() as int) =~= os);
        }
        pool
    }

    /// Records the outcome of connecting to the server `label`: its client, or
    /// the text of the connection error.
    pub fn record_connection(&mut self, label: String, result: Result<C, String>)
        requires
            old(self).wf(),
            !old(self).clients().contains_key(label@),
            !old(self).errors().contains_key(label@),
        ensures
            final(self).wf(),
            match result {
                Ok(c) => {
                    &&& final(self).clients() == old(self).clients().insert(label@, c)
                    &&& final(self).errors() == old(self).errors()
                    &&& final(self).connected_labels() == old(self).connected_labels().push(label@)
                },
                Err(e) => {
                    &&& final(self).clients() == old(self).clients()
                    &&& final(self).errors() == old(self).errors().insert(label@, e@)
                    &&& final(self).connected_labels() == old(self).connected_labels()
                },
            },
    {
        let ghost old_labels = self.labels@;
        match result {
            Ok(c) => {
                self.clients.insert(label.clone(), c);
                self.labels.push(label);
                proof {
                    assert(self.connected_labels() =~= crate::text::views(old_labels).push(label@));
                    assert forall|i: int, j: int|
                        0 <= i < j < self.labels@.len() implies (#[trigger] self.labels@[i])@ != (
                    #[trigger] self.labels@[j])@ by {
                        if j == old_labels.len() {
                            assert(self.labels@[i] == old_labels[i]);
                            assert(old(self).clients@.contains_key(old_labels[i]@));
                        } else {
                            assert(self.labels@[i] == old_labels[i] && self.labels@[j] == old_labels[j]);
                        }
                    }
                    assert forall|i: int| 0 <= i < self.labels@.len() implies self.clients@.contains_key(
                        (#[trigger] self.labels@[i])@,
                    ) by {
                        if i < old_labels.len() {
                            assert(self.labels@[i] == old_labels[i]);
                        }
                    }
                    assert forall|k: Seq<char>| #[trigger]
                        self.clients@.contains_key(k) implies exists|i: int|
                        0 <= i < self.labels@.len() && (#[trigger] self.labels@[i])@ == k by {
                        if k == label@ {
                            assert(self.labels@[old_labels.len() as int]@ == k);
                        } else {
                            let i = choose|i: int| 0 <= i < old_labels.len() && (#[trigger] old_labels[i])@ == k;
                            assert(self.labels@[i] == old_labels[i]);
                        }
                    }
                    assert forall|k: Seq<char>|
                        !(#[trigger] self.clients@.contains_key(k) && self.connection_errors@.contains_key(k)) by {
                        if k == label@ {
                            assert(!old(self).errors().contains_key(k));
                        }
                    }
                }
            },
            Err(e) => {
                self.connection_errors.insert(label, e);
                proof {
                    assert(self.errors() =~= old(self).errors().insert(label@, e@));
                    assert forall|k: Seq<char>|
                        !(#[trigger] self.clients@.contains_key(k) && self.connection_errors@.contains_key(k)) by {
                        if k == label@ {
                            assert(!old(self).clients().contains_key(k));
                        }
                    }
                }
            },
        }
    }

    /// The client connected for `server_label`.
    pub fn get(&self, server_label: &str) -> (r: Option<&C>)
        ensures
            match r {
                Some(c) => self.clients().contains_key(server_label@) && *c == self.clients()[server_label@],
                None => !self.clients().contains_key(server_label@),
            },
    {
        self.clients.get(server_label)
    }

    /// The error text of the server `server_label`, if it failed to connect.
    pub fn connection_error(&self, server_label: &str) -> (r: Option<&str>)
        ensures
            match r {
                Some(e) => self.errors().contains_key(server_label@) && e@ == self.errors()[server_label@],
                None => !self.errors().contains_key(server_label@),
            },
    {
        match self.connection_errors.get(server_label) {
            Some(e) => Some(e.as_str()),
            None => None,
        }
    }

    /// Whether no server connected.
    pub fn is_empty(&self) -> (r: bool)
        requires
            self.wf(),
        ensures
            r == (self.clients().dom() =~= Set::<Seq<char>>::empty()),
    {
        let r = self.labels.len() == 0;
        proof {
            if r {
                assert forall|k: Seq<char>| !self.clients@.contains_key(k) by {
                    if self.clients@.contains_key(k) {
                        let i = choose|i: int| 0 <= i < self.labels@.len() && (#[trigger] self.labels@[i])@ == k;
                    }
                }
                assert(self.clients().dom() =~= Set::<Seq<char>>::empty());
            } else {
                assert(self.clients@.contains_key(self.labels@[0]@));
                assert(self.clients().dom().contains(self.labels@[0]@));
            }
        }
        r
    }

    /// The connected servers, each label with its client, in the order they
    /// connected.
    pub fn iter(&self) -> (r: Vec<(&String, &C)>)
        requires
            self.wf(),
        ensures
            r@.len() == self.connected_labels().len(),
            forall|i: int|
                0 <= i < r@.len() ==> {
                    let (l, c) = #[trigger] r@[i];
                    &&& l@ == self.connected_labels()[i]
                    &&& self.clients().contains_key(l@)
                    &&& *c == self.clients()[l@]
                },
    {
        let mut out: Vec<(&String, &C)> = Vec::new();
        for i in 0..self.labels.len()
            invariant
                self.wf(),
                out@.len() == i,
                forall|j: int|
                    0 <= j < i ==> {
                        let (l, c) = #[trigger] out@[j];
                        &&& l@ == self.labels@[j]@
                        &&& self.clients@.contains_key(l@)
                        &&& *c == self.clients@[l@]
                    },
        {
            let label = &self.labels[i];
            assert(self.clients@.contains_key(self.labels@[i as int]@));
            match self.clients.get(label.as_str()) {
                Some(c) => out.push((label, c)),
                None => {},
            }
        }
        out
    }

    /// The client for an MCP declaration: the one connected under its
    /// (trimmed, non-blank) server label.
    pub fn client_for_param(&self, param: &McpToolParam) -> (r: Option<&C>)
        ensures
            match cleaned(param@.server_label) {
                None => r is None,
                Some(l) => match r {
                    Some(c) => self.clients().contains_key(l) && *c == self.clients()[l],
                    None => !self.clients().contains_key(l),
                },
            },
    {
        let label = match param.server_label.as_ref() {
            Some(l) => clean_string(Some(l.as_str())),
            None => None,
        };
        match label {
            None => None,
            Some(l) => self.get(l.as_str()),
        }
    }
}

} // verus!
