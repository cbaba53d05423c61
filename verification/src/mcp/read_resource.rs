//! The `read_mcp_resource` function tool that the gateway offers the model.

use vstd::prelude::*;

use crate::json::{json_get, json_str, json_str_member, member, JsonValue};
use crate::tools::FunctionTool;

verus! {

/// The name under which the model calls the resource reader.
pub const READ_MCP_RESOURCE_TOOL_NAME: &'static str = "read_mcp_resource";

/// The arguments of a `read_mcp_resource` call.
#[derive(Debug, Clone)]
pub struct ReadResourceArgs {
    pub server: String,
    pub uri: String,
}

/// An object schema member of type string with the given description.
pub open spec fn string_property(v: JsonValue, description: Seq<char>) -> bool {
    &&& v matches JsonValue::Object(es) && es@.len() == 2
    &&& json_str_member(v, "type"@) == Some("string"@)
    &&& json_str_member(v, "description"@) == Some(description)
}

/// The parameter schema of `read_mcp_resource`: an object with string
/// properties `server` and `uri`, both required, and no others allowed.
pub open spec fn read_resource_parameters(v: JsonValue) -> bool {
    &&& v matches JsonValue::Object(es) && es@.len() == 4
    &&& json_str_member(v, "type"@) == Some("object"@)
    &&& json_get(v, "additionalProperties"@) == Some(JsonValue::Bool(false))
    &&& json_get(v, "properties"@) matches Some(props) && {
        &&& props matches JsonValue::Object(ps) && ps@.len() == 2
        &&& json_get(props, "server"@) matches Some(s) && string_property(
            s,
            "The server_label to read from."@,
        )
        &&& json_get(props, "uri"@) matches Some(u) && string_property(
            u,
            "The resource URI to read."@,
        )
    }
    &&& json_get(v, "required"@) matches Some(JsonValue::Array(req)) && req@.len() == 2 && json_str(
        req@[0],
    ) == Some("server"@) && json_str(req@[1]) == Some("uri"@)
}

fn string_schema(description: &str) -> (v: JsonValue)
    ensures
        string_property(v, description@),
{
    let mut es: Vec<(String, JsonValue)> = Vec::new();
    es.push(("description".to_owned(), JsonValue::String(description.to_owned())));
    es.push(("type".to_owned(), JsonValue::String("string".to_owned())));
    proof {
        reveal_strlit("description");
        reveal_strlit("type");
        assert("description"@.len() != "type"@.len());
        assert(es@.drop_first().drop_first() =~= Seq::<(String, JsonValue)>::empty());
        reveal_with_fuel(member, 3);
    }
    JsonValue::Object(es)
}

/// `t` is the function spec of `read_mcp_resource`.
pub open spec fn is_read_resource_spec(t: FunctionTool) -> bool {
    &&& t.type_@ == "function"@
    &&& t.name@ == READ_MCP_RESOURCE_TOOL_NAME@
    &&& t.description matches Some(d) && d@ == "Read a resource by URI from a connected MCP server."@
    &&& t.parameters matches Some(p) && read_resource_parameters(p)
    &&& t.strict == Some(false)
}

/// The function spec of `read_mcp_resource`.
pub fn read_mcp_resource_spec() -> (t: FunctionTool)
    ensures
        is_read_resource_spec(t),
{
    let mut props: Vec<(String, JsonValue)> = Vec::new();
    props.push(("server".to_owned(), string_schema("The server_label to read from.")));
    props.push(("uri".to_owned(), string_schema("The resource URI to read.")));
    let mut required: Vec<JsonValue> = Vec::new();
    required.push(JsonValue::String("server".to_owned()));
    required.push(JsonValue::String("uri".to_owned()));
    let mut es: Vec<(String, JsonValue)> = Vec::new();
    es.push(("additionalProperties".to_owned(), JsonValue::Bool(false)));
    es.push(("properties".to_owned(), JsonValue::Object(props)));
    es.push(("required".to_owned(), JsonValue::Array(required)));
    es.push(("type".to_owned(), JsonValue::String("object".to_owned())));
    proof {
        reveal_strlit("server");
        reveal_strlit("uri");
        reveal_strlit("additionalProperties");
        reveal_strlit("properties");
        reveal_strlit("required");
        reveal_strlit("type");
        assert("server"@.len() != "uri"@.len());
        assert("additionalProperties"@.len() != "properties"@.len());
        assert("additionalProperties"@.len() != "required"@.len());
        assert("additionalProperties"@.len() != "type"@.len());
        assert("properties"@.len() != "required"@.len());
        assert("properties"@.len() != "type"@.len());
        assert("required"@.len() != "type"@.len());
        reveal_with_fuel(member, 5);
    }
    FunctionTool {
        type_: "function".to_owned(),
        name: READ_MCP_RESOURCE_TOOL_NAME.to_owned(),
        description: Some("Read a resource by URI from a connected MCP server.".to_owned()),
        parameters: Some(JsonValue::Object(es)),
        strict: Some(false),
    }
}

} // verus!
