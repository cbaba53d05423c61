use agentic_api::event::MessageStatus;
use agentic_api::input::{
    FunctionToolResultMessage, FunctionToolResultOutput, InputContent, InputImageContent, InputItem,
    InputMessage, InputMessageContent, InputTextContent,
};
use agentic_api::json::JsonValue;
use agentic_api::output::CustomToolCall;
use agentic_api::tools::ToolOutput;

fn text(t: &str) -> InputContent {
    InputContent::InputText(InputTextContent { text: t.to_owned() })
}

#[test]
fn function_tool_result_message_deserialize_string_output() {
    let msg = FunctionToolResultMessage {
        call_id: "call_abc".to_owned(),
        output: FunctionToolResultOutput::Text("result text".to_owned()),
    };
    assert_eq!(msg.call_id, "call_abc");
    assert_eq!(msg.output.to_text(), "result text");
}

#[test]
fn function_tool_result_message_deserialize_list_output() {
    let msg = FunctionToolResultMessage {
        call_id: "call_123".to_owned(),
        output: FunctionToolResultOutput::Parts(vec![text("result text")]),
    };
    assert_eq!(msg.call_id, "call_123");
    assert_eq!(msg.output.to_text(), "result text");
}

#[test]
fn function_tool_result_message_deserialize_empty_list() {
    let msg = FunctionToolResultMessage {
        call_id: "call_empty".to_owned(),
        output: FunctionToolResultOutput::Parts(vec![]),
    };
    assert_eq!(msg.call_id, "call_empty");
    assert_eq!(msg.output.to_text(), "");
}

#[test]
fn input_item_function_call_output_with_string_output() {
    let item = InputItem::from_function_result(FunctionToolResultMessage {
        call_id: "call_x".to_owned(),
        output: FunctionToolResultOutput::Text("stdout".to_owned()),
    });
    match item {
        InputItem::FunctionCallOutput(msg) => {
            assert_eq!(msg.type_, "function_call_output");
            assert_eq!(msg.call_id, "call_x");
            assert_eq!(msg.output.to_text(), "stdout");
        }
        other => panic!("expected FunctionCallOutput, got {other:?}"),
    }
}

#[test]
fn input_item_function_call_output_with_list_output() {
    let item = InputItem::from_function_result(FunctionToolResultMessage {
        call_id: "call_y".to_owned(),
        output: FunctionToolResultOutput::Parts(vec![text("stdout")]),
    });
    match item {
        InputItem::FunctionCallOutput(msg) => {
            assert_eq!(msg.call_id, "call_y");
            assert_eq!(msg.output.to_text(), "stdout");
        }
        other => panic!("expected FunctionCallOutput, got {other:?}"),
    }
}

#[test]
fn to_text_with_multiple_parts_concatenates() {
    let output = FunctionToolResultOutput::Parts(vec![text("first"), text("second")]);
    assert_eq!(output.to_text(), "first\nsecond");
}

#[test]
fn to_text_skips_non_text_parts() {
    let output = FunctionToolResultOutput::Parts(vec![
        InputContent::InputImage(InputImageContent {
            image_url: Some("http://example.com/img.png".to_owned()),
            detail: None,
        }),
        text("after image"),
    ]);
    assert_eq!(output.to_text(), "after image");
}

#[test]
fn to_text_keeps_output_text_and_drops_reasoning_and_unknown_parts() {
    let output = FunctionToolResultOutput::Parts(vec![
        InputContent::Unknown,
        InputContent::OutputText(InputTextContent { text: "a".to_owned() }),
        InputContent::ReasoningText(InputTextContent { text: "hidden".to_owned() }),
        text(""),
        text("b"),
    ]);
    assert_eq!(output.to_text(), "a\n\nb");
}

#[test]
fn to_text_of_object_is_compact_json() {
    let output = FunctionToolResultOutput::Object(JsonValue::Object(vec![(
        "status".to_owned(),
        JsonValue::String("ok".to_owned()),
    )]));
    assert_eq!(output.to_text(), "{\"status\":\"ok\"}");
    assert_eq!(FunctionToolResultOutput::Object(JsonValue::Object(vec![])).to_text(), "{}");
}

#[test]
fn from_custom_tool_call_to_input_item() {
    let call = CustomToolCall {
        id: "ctc_1".into(),
        status: Some(MessageStatus::Completed),
        call_id: "call_1".into(),
        name: "apply_patch".into(),
        input: "patch data".into(),
    };
    let item = InputItem::from_custom_tool_call(call);
    match item {
        InputItem::CustomToolCall(wrapper) => {
            assert_eq!(wrapper.id, "ctc_1");
            assert_eq!(wrapper.name, "apply_patch");
            assert_eq!(wrapper.input, "patch data");
            assert_eq!(wrapper.type_, "custom_tool_call");
        }
        other => panic!("expected CustomToolCall, got {other:?}"),
    }
}

#[test]
fn assistant_text_goes_out_as_output_text_part() {
    let msg = InputMessage {
        role: "assistant".to_owned(),
        content: InputMessageContent::Text("hi".to_owned()),
    };
    match msg.into_wire_content() {
        InputMessageContent::Parts(parts) => {
            assert_eq!(parts.len(), 1);
            match &parts[0] {
                InputContent::OutputText(c) => assert_eq!(c.text, "hi"),
                other => panic!("expected OutputText, got {other:?}"),
            }
        }
        InputMessageContent::Text(_) => panic!("expected Parts"),
    }
    let msg = InputMessage {
        role: "user".to_owned(),
        content: InputMessageContent::Text("hi".to_owned()),
    };
    assert!(matches!(msg.into_wire_content(), InputMessageContent::Text(t) if t == "hi"));
}

#[test]
fn tool_output_becomes_text_result() {
    let msg = FunctionToolResultMessage::from(ToolOutput {
        call_id: "call_9".to_owned(),
        output: "done".to_owned(),
    });
    assert_eq!(msg.call_id, "call_9");
    assert_eq!(msg.output.to_text(), "done");
}
