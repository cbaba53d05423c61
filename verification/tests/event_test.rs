use agentic_api::event::{MessageStatus, ResponseStatus, SSEEventType};

#[test]
fn test_sse_event_type_from_str_created() {
    assert_eq!(
        "response.created".parse::<SSEEventType>().unwrap(),
        SSEEventType::ResponseCreated
    );
}

#[test]
fn test_sse_event_type_from_str_delta() {
    assert_eq!(
        "response.output_text.delta".parse::<SSEEventType>().unwrap(),
        SSEEventType::ResponseOutputTextDelta
    );
}

#[test]
fn test_sse_event_type_from_str_done() {
    assert_eq!(
        "response.done".parse::<SSEEventType>().unwrap(),
        SSEEventType::ResponseDone
    );
}

#[test]
fn test_sse_event_type_from_str_unknown() {
    assert_eq!("unknown.event".parse::<SSEEventType>().unwrap(), SSEEventType::Other);
}

#[test]
fn test_sse_event_type_from_str_empty() {
    assert_eq!("".parse::<SSEEventType>().unwrap(), SSEEventType::Other);
}

#[test]
fn test_response_status_round_trip() {
    for (s, expected) in [
        ("in_progress", ResponseStatus::InProgress),
        ("completed", ResponseStatus::Completed),
        ("incomplete", ResponseStatus::Incomplete),
        ("error", ResponseStatus::Error),
    ] {
        let parsed: ResponseStatus = s.parse().unwrap();
        assert_eq!(parsed, expected);
        assert_eq!(parsed.as_str(), s);
    }
}

#[test]
fn test_message_status_round_trip() {
    assert_eq!("completed".parse::<MessageStatus>().unwrap(), MessageStatus::Completed);
    assert_eq!(
        "in_progress".parse::<MessageStatus>().unwrap(),
        MessageStatus::InProgress
    );
    assert_eq!("unknown".parse::<MessageStatus>().unwrap(), MessageStatus::InProgress);
}

#[test]
fn sse_event_type_accepts_openai_completed_name() {
    assert_eq!(
        SSEEventType::from_wire("response.completed"),
        SSEEventType::ResponseDone
    );
    assert_eq!(
        SSEEventType::from_wire("response.output_item.added"),
        SSEEventType::ResponseOutputItemAdded
    );
}

#[test]
fn unknown_response_status_reads_as_error() {
    assert_eq!(ResponseStatus::from_wire("cancelled"), ResponseStatus::Error);
    assert_eq!(ResponseStatus::from_wire(""), ResponseStatus::Error);
}

#[test]
fn message_status_wire_strings_read_back() {
    for s in [MessageStatus::InProgress, MessageStatus::Completed] {
        assert_eq!(MessageStatus::from_wire(s.as_str()), s);
    }
}

#[test]
fn statuses_default_to_in_progress() {
    assert_eq!(ResponseStatus::default(), ResponseStatus::InProgress);
    assert_eq!(MessageStatus::default(), MessageStatus::InProgress);
    assert_eq!(SSEEventType::default(), SSEEventType::Other);
}
