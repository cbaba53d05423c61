//! Response and message status values and the server-sent event types of a
//! streamed response, with their wire strings.

use std::convert::Infallible;
use std::str::FromStr;

use vstd::prelude::*;

use crate::text::str_eq;

verus! {

/// Response completion status.
#[derive(Debug, Clone, Copy, PartialEq, Eq, Structural)]
pub enum ResponseStatus {
    /// Response is being generated.
    InProgress,
    /// Response generation completed successfully.
    Completed,
    /// Response generation incomplete (e.g., stream interrupted).
    Incomplete,
    /// Response generation encountered an error.
    Error,
}

/// The wire string of a response status.
pub open spec fn response_status_text(s: ResponseStatus) -> Seq<char> {
    match s {
        ResponseStatus::InProgress => "in_progress"@,
        ResponseStatus::Completed => "completed"@,
        ResponseStatus::Incomplete => "incomplete"@,
        ResponseStatus::Error => "error"@,
    }
}

/// The status a wire string names; anything unrecognised reads as `Error`.
pub open spec fn response_status_of(s: Seq<char>) -> ResponseStatus {
    if s == "in_progress"@ {
        ResponseStatus::InProgress
    } else if s == "completed"@ {
        ResponseStatus::Completed
    } else if s == "incomplete"@ {
        ResponseStatus::Incomplete
    } else {
        ResponseStatus::Error
    }
}

impl ResponseStatus {
    /// Returns the canonical wire string for this status.
    pub fn as_str(self) -> (r: &'static str)
        ensures
            r@ == response_status_text(self),
    {
        match self {
            Self::InProgress => "in_progress",
            Self::Completed => "completed",
            Self::Incomplete => "incomplete",
            Self::Error => "error",
        }
    }

    /// Reads a status from its wire string; unrecognised strings give `Error`.
    pub fn from_wire(s: &str) -> (r: Self)
        ensures
            r == response_status_of(s@),
    {
        if str_eq(s, "in_progress") {
            Self::InProgress
        } else if str_eq(s, "completed") {
            Self::Completed
        } else if str_eq(s, "incomplete") {
            Self::Incomplete
        } else {
            Self::Error
        }
    }
}

impl Default for ResponseStatus {
    fn default() -> (r: Self)
        ensures
            r == ResponseStatus::InProgress,
    {
        Self::InProgress
    }
}

impl FromStr for ResponseStatus {
    type Err = Infallible;

    fn from_str(s: &str) -> (r: Result<Self, Self::Err>)
        ensures
            r == Ok::<Self, Infallible>(response_status_of(s@)),
    {
        Ok(Self::from_wire(s))
    }
}

/// Message item completion status.
#[derive(Debug, Clone, Copy, PartialEq, Eq, Structural)]
pub enum MessageStatus {
    /// Message is being generated.
    InProgress,
    /// Message generation completed.
    Completed,
}

/// The wire string of a message status.
pub open spec fn message_status_text(s: MessageStatus) -> Seq<char> {
    match s {
        MessageStatus::InProgress => "in_progress"@,
        MessageStatus::Completed => "completed"@,
    }
}

/// The status a wire string names; anything but `completed` reads as in progress.
pub open spec fn message_status_of(s: Seq<char>) -> MessageStatus {
    if s == "completed"@ {
        MessageStatus::Completed
    } else {
        MessageStatus::InProgress
    }
}

impl MessageStatus {
    /// Returns the canonical wire string for this status.
    pub fn as_str(self) -> (r: &'static str)
        ensures
            r@ == message_status_text(self),
    {
        match self {
            Self::InProgress => "in_progress",
            Self::Completed => "completed",
        }
    }

    /// Reads a status from its wire string; only `completed` gives `Completed`.
    pub fn from_wire(s: &str) -> (r: Self)
        ensures
            r == message_status_of(s@),
    {
        if str_eq(s, "completed") {
            Self::Completed
        } else {
            Self::InProgress
        }
    }
}

impl Default for MessageStatus {
    fn default() -> (r: Self)
        ensures
            r == MessageStatus::InProgress,
    {
        Self::InProgress
    }
}

impl FromStr for MessageStatus {
    type Err = Infallible;

    fn from_str(s: &str) -> (r: Result<Self, Self::Err>)
        ensures
            r == Ok::<Self, Infallible>(message_status_of(s@)),
    {
        Ok(Self::from_wire(s))
    }
}

/// Server-Sent Event types from LLM streaming responses.
#[derive(Debug, Clone, Copy, PartialEq, Eq, Structural)]
pub enum SSEEventType {
    /// Response object created; contains initial response metadata.
    ResponseCreated,
    /// Output item (message) added; marks the start of a new message.
    ResponseOutputItemAdded,
    /// Text delta; incremental token content added to the current message.
    ResponseOutputTextDelta,
    /// Response fully completed; no more events will follow.
    ResponseDone,
    /// Unknown or unhandled event type.
    Other,
}

/// The event type an SSE `event` name denotes. Both `response.done` (vLLM)
/// and `response.completed` (OpenAI) end a response.
pub open spec fn sse_event_type_of(s: Seq<char>) -> SSEEventType {
    if s == "response.created"@ {
        SSEEventType::ResponseCreated
    } else if s == "response.output_item.added"@ {
        SSEEventType::ResponseOutputItemAdded
    } else if s == "response.output_text.delta"@ {
        SSEEventType::ResponseOutputTextDelta
    } else if s == "response.done"@ || s == "response.completed"@ {
        SSEEventType::ResponseDone
    } else {
        SSEEventType::Other
    }
}

impl SSEEventType {
    /// Reads an event type from its name; unknown names give `Other`.
    pub fn from_wire(s: &str) -> (r: Self)
        ensures
            r == sse_event_type_of(s@),
    {
        if str_eq(s, "response.created") {
            Self::ResponseCreated
        } else if str_eq(s, "response.output_item.added") {
            Self::ResponseOutputItemAdded
        } else if str_eq(s, "response.output_text.delta") {
            Self::ResponseOutputTextDelta
        } else if str_eq(s, "response.done") || str_eq(s, "response.completed") {
            Self::ResponseDone
        } else {
            Self::Other
        }
    }
}

impl Default for SSEEventType {
    fn default() -> (r: Self)
        ensures
            r == SSEEventType::Other,
    {
        Self::Other
    }
}

impl FromStr for SSEEventType {
    type Err = Infallible;

    fn from_str(s: &str) -> (r: Result<Self, Self::Err>)
        ensures
            r == Ok::<Self, Infallible>(sse_event_type_of(s@)),
    {
        Ok(Self::from_wire(s))
    }
}

/// Reading back the wire string of a response status gives the same status.
pub proof fn lemma_response_status_round_trip(s: ResponseStatus)
    ensures
        response_status_of(response_status_text(s)) == s,
{
    reveal_strlit("in_progress");
    reveal_strlit("completed");
    reveal_strlit("incomplete");
    reveal_strlit("error");
    assert("in_progress"@.len() == 11);
    assert("completed"@.len() == 9);
    assert("incomplete"@.len() == 10);
    assert("completed"@ != "incomplete"@);
    assert("error"@ != "in_progress"@);
    assert("error"@ != "completed"@);
    assert("error"@ != "incomplete"@);
}

/// Reading back the wire string of a message status gives the same status.
pub proof fn lemma_message_status_round_trip(s: MessageStatus)
    ensures
        message_status_of(message_status_text(s)) == s,
{
    reveal_strlit("in_progress");
    reveal_strlit("completed");
    assert("in_progress"@.len() != "completed"@.len());
}

/// Distinct response statuses have distinct wire strings.
pub proof fn lemma_response_status_text_injective(a: ResponseStatus, b: ResponseStatus)
    ensures
        response_status_text(a) == response_status_text(b) ==> a == b,
{
    lemma_response_status_round_trip(a);
    lemma_response_status_round_trip(b);
}

} // verus!
