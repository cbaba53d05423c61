//! What the MCP client reports about its operations, and the checks it makes
//! before talking to a server: the custom HTTP headers it is given, and the
//! tool-call arguments it sends.

use vstd::prelude::*;

use crate::json::{parse_json, spec_parse_json, JsonValue};

verus! {

/// An operation of the MCP client.
#[derive(Debug, Clone, Copy, PartialEq, Eq, Structural)]
pub enum McpOperation {
    Connect,
    ListTools,
    CallTool,
    ReadResource,
}

/// The name of an operation in messages (the MCP method it performs).
pub open spec fn operation_text(op: McpOperation) -> Seq<char> {
    match op {
        McpOperation::Connect => "connect"@,
        McpOperation::ListTools => "tools/list"@,
        McpOperation::CallTool => "tools/call"@,
        McpOperation::ReadResource => "resources/read"@,
    }
}

impl McpOperation {
    /// The name of the operation in messages.
    pub fn as_str(self) -> (r: &'static str)
        ensures
            r@ == operation_text(self),
    {
        match self {
            McpOperation::Connect => "connect",
            McpOperation::ListTools => "tools/list",
            McpOperation::CallTool => "tools/call",
            McpOperation::ReadResource => "resources/read",
        }
    }
}

/// Tool-call arguments that are not a JSON object.
#[derive(Debug, Clone, Copy, PartialEq, Eq, Structural)]
pub struct InvalidArguments;

/// The members sent as a tool call's arguments: those of an object, nothing
/// when there are no arguments; any other JSON value is refused.
pub fn object_arguments(arguments: Option<JsonValue>) -> (r: Result<Option<Vec<(String, JsonValue)>>, InvalidArguments>)
    ensures
        match arguments {
            Some(JsonValue::Object(m)) => r == Ok::<Option<Vec<(String, JsonValue)>>, InvalidArguments>(Some(m)),
            Some(_) => r is Err,
            None => r == Ok::<Option<Vec<(String, JsonValue)>>, InvalidArguments>(None),
        },
{
    match arguments {
        Some(JsonValue::Object(map)) => Ok(Some(map)),
        Some(_) => Err(InvalidArguments),
        None => Ok(None),
    }
}

/// The members sent for a tool call's argument text: nothing when the text
/// is not JSON, the members of a JSON object; any other JSON value is
/// refused.
pub fn tool_call_arguments(arguments: &str) -> (r: Result<Option<Vec<(String, JsonValue)>>, InvalidArguments>)
    ensures
        match spec_parse_json(arguments@) {
            None => r == Ok::<Option<Vec<(String, JsonValue)>>, InvalidArguments>(None),
            Some(JsonValue::Object(m)) => r == Ok::<Option<Vec<(String, JsonValue)>>, InvalidArguments>(Some(m)),
            Some(_) => r is Err,
        },
{
    object_arguments(parse_json(arguments))
}

/// Whether `c` is a token character that `http` accepts in a header name
/// (upper-case letters are accepted and lowered).
pub open spec fn is_token_char(c: char) -> bool {
    ||| 'a' <= c <= 'z'
    ||| 'A' <= c <= 'Z'
    ||| '0' <= c <= '9'
    ||| c == '!' || c == '#' || c == '$' || c == '%' || c == '&' || c == '\'' || c == '*'
    ||| c == '+' || c == '-' || c == '.' || c == '^' || c == '_' || c == '`' || c == '|' || c == '~'
}

/// Whether `http` accepts `name` as a header name: non-empty, at most 65535
/// bytes, and made only of token characters.
pub open spec fn header_name_valid(name: Seq<char>) -> bool {
    &&& 0 < name.len() <= 65535
    &&& forall|i: int| 0 <= i < name.len() ==> is_token_char(#[trigger] name[i])
}

/// Whether `c` may stand in a header value: a tab, or at least a space and
/// not DEL (every byte of a non-ASCII character is 128 or more).
pub open spec fn is_value_char(c: char) -> bool {
    c == '\t' || (' ' <= c && c != '\x7f')
}

/// Whether `http` accepts `value` as a header value.
pub open spec fn header_value_valid(value: Seq<char>) -> bool {
    forall|i: int| 0 <= i < value.len() ==> is_value_char(#[trigger] value[i])
}

/// Whether `http::header::HeaderName::try_from` accepts `name`. Trusted: it
/// succeeds exactly for the names `header_name_valid` describes.
#[verifier::external_body]
fn header_name_ok(name: &str) -> (b: bool)
    ensures
        b == header_name_valid(name@),
{
    http::header::HeaderName::try_from(name.to_owned()).is_ok()
}

/// Whether `http::header::HeaderValue::try_from` accepts `value`. Trusted:
/// it succeeds exactly for the values `header_value_valid` describes.
#[verifier::external_body]
fn header_value_ok(value: &str) -> (b: bool)
    ensures
        b == header_value_valid(value@),
{
    http::header::HeaderValue::try_from(value.to_owned()).is_ok()
}

/// A custom header that cannot be sent: its name, or its value.
#[derive(Debug, Clone)]
pub enum HeaderError {
    InvalidName(String),
    InvalidValue(String),
}

/// Whether a header's name and value are both accepted.
pub open spec fn header_ok(h: (String, String)) -> bool {
    header_name_valid(h.0@) && header_value_valid(h.1@)
}

/// The index of the first header that is not accepted; the length when all are.
pub open spec fn first_invalid(hs: Seq<(String, String)>) -> int
    decreases hs.len(),
{
    if hs.len() == 0 {
        0
    } else if !header_ok(hs[0]) {
        0
    } else {
        1 + first_invalid(hs.drop_first())
    }
}

proof fn lemma_first_invalid(hs: Seq<(String, String)>, k: int)
    requires
        0 <= k <= hs.len(),
        forall|j: int| 0 <= j < k ==> header_ok(#[trigger] hs[j]),
        k < hs.len() ==> !header_ok(hs[k]),
    ensures
        first_invalid(hs) == k,
    decreases k,
{
    if k > 0 {
        let rest = hs.drop_first();
        assert forall|j: int| 0 <= j < k - 1 implies header_ok(#[trigger] rest[j]) by {
            assert(rest[j] == hs[j + 1]);
        }
        assert(header_ok(hs[0]));
        lemma_first_invalid(rest, k - 1);
    }
}

/// The custom headers to send to an MCP server: none when there are none;
/// the headers as given when every name and value is accepted; otherwise the
/// first header (in order) that is not, by its name when the name is refused,
/// else by its value.
pub fn custom_headers(headers: Option<Vec<(String, String)>>) -> (r: Result<Option<Vec<(String, String)>>, HeaderError>)
    ensures
        match headers {
            None => r matches Ok(None),
            Some(h) => {
                let k = first_invalid(h@);
                if h@.len() == 0 {
                    r matches Ok(None)
                } else if k == h@.len() {
                    r == Ok::<Option<Vec<(String, String)>>, HeaderError>(Some(h))
                } else if !header_name_valid(h@[k].0@) {
                    r matches Err(HeaderError::InvalidName(n)) && n@ == h@[k].0@
                } else {
                    r matches Err(HeaderError::InvalidValue(v)) && v@ == h@[k].1@
                }
            },
        },
{
    let h = match headers {
        None => return Ok(None),
        Some(h) => h,
    };
    if h.len() == 0 {
        return Ok(None);
    }
    for i in 0..h.len()
        invariant
            headers == Some(h),
            h@.len() > 0,
            forall|j: int| 0 <= j < i ==> header_ok(#[trigger] h@[j]),
    {
        let name_ok = header_name_ok(h[i].0.as_str());
        let value_ok = header_value_ok(h[i].1.as_str());
        if !name_ok || !value_ok {
            proof {
                lemma_first_invalid(h@, i as int);
            }
            if !name_ok {
                return Err(HeaderError::InvalidName(h[i].0.clone()));
            }
            return Err(HeaderError::InvalidValue(h[i].1.clone()));
        }
    }
    proof {
        lemma_first_invalid(h@, h@.len() as int);
    }
    Ok(Some(h))
}

} // verus!
