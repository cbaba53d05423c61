//! Output items of a response that the gateway's MCP logic produces or reads.

use vstd::prelude::*;

use crate::event::MessageStatus;
use crate::json::JsonValue;

verus! {

/// Status of a tool call that the gateway executes itself.
#[derive(Debug, Clone, Copy, PartialEq, Eq, Structural)]
pub enum GatewayCallStatus {
    InProgress,
    Completed,
    Failed,
}

/// The wire string of a gateway call status.
pub open spec fn gateway_call_status_text(s: GatewayCallStatus) -> Seq<char> {
    match s {
        GatewayCallStatus::InProgress => "in_progress"@,
        GatewayCallStatus::Completed => "completed"@,
        GatewayCallStatus::Failed => "failed"@,
    }
}

impl GatewayCallStatus {
    /// Returns the canonical wire string for this status.
    pub fn as_str(self) -> (r: &'static str)
        ensures
            r@ == gateway_call_status_text(self),
    {
        match self {
            Self::InProgress => "in_progress",
            Self::Completed => "completed",
            Self::Failed => "failed",
        }
    }
}

/// Distinct gateway call statuses are written differently, so a reader of
/// the wire can tell a failed call from a completed or running one; a failed
/// call is written `failed`.
pub proof fn lemma_gateway_call_status_text(a: GatewayCallStatus, b: GatewayCallStatus)
    ensures
        gateway_call_status_text(a) == gateway_call_status_text(b) ==> a == b,
        gateway_call_status_text(GatewayCallStatus::Failed) == "failed"@,
        gateway_call_status_text(a) == "completed"@ <==> a == GatewayCallStatus::Completed,
{
    reveal_strlit("in_progress");
    reveal_strlit("completed");
    reveal_strlit("failed");
    assert("in_progress"@.len() == 11);
    assert("completed"@.len() == 9);
    assert("failed"@.len() == 6);
}

/// A function call emitted by the model.
#[derive(Debug, Clone)]
pub struct FunctionToolCall {
    pub id: String,
    pub call_id: String,
    pub name: String,
    pub namespace: Option<String>,
    pub arguments: String,
}

/// An MCP tool call that the gateway ran on the model's behalf.
#[derive(Debug)]
pub struct McpToolCall {
    pub id: String,
    pub server: String,
    pub tool: String,
    pub arguments: JsonValue,
    pub status: GatewayCallStatus,
    pub result: Option<JsonValue>,
    pub error: Option<String>,
}

impl McpToolCall {
    /// Builds the item from its parts.
    pub fn new(
        id: String,
        server: String,
        tool: String,
        arguments: JsonValue,
        status: GatewayCallStatus,
        result: Option<JsonValue>,
        error: Option<String>,
    ) -> (r: Self)
        ensures
            r == (McpToolCall { id, server, tool, arguments, status, result, error }),
    {
        McpToolCall { id, server, tool, arguments, status, result, error }
    }
}

/// An assistant message in the output.
#[derive(Debug, Clone)]
pub struct OutputMessage {
    pub id: String,
    pub status: String,
}

impl OutputMessage {
    /// A message with the given id and status.
    pub fn new(id: &str, status: &str) -> (r: Self)
        ensures
            r.id@ == id@,
            r.status@ == status@,
    {
        OutputMessage { id: id.to_owned(), status: status.to_owned() }
    }
}

/// A reasoning step's text.
#[derive(Debug, Clone)]
pub struct ReasoningTextContent {
    pub text: String,
}

/// A reasoning item in the output.
#[derive(Debug)]
pub struct ReasoningOutput {
    pub id: String,
    pub content: Vec<ReasoningTextContent>,
    pub summary: Vec<JsonValue>,
    pub encrypted_content: Option<JsonValue>,
}

/// A freeform custom tool call emitted by the model.
#[derive(Debug, Clone)]
pub struct CustomToolCall {
    pub id: String,
    pub status: Option<MessageStatus>,
    pub call_id: String,
    pub name: String,
    pub input: String,
}

/// One item of a response's output.
#[derive(Debug)]
pub enum OutputItem {
    Message(OutputMessage),
    FunctionCall(FunctionToolCall),
    McpToolCall(McpToolCall),
    Reasoning(ReasoningOutput),
    CustomToolCall(CustomToolCall),
}

} // verus!
