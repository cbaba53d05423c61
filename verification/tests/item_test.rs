use agentic_api::input::{InputItem, InputMessage, InputMessageContent};
use agentic_api::item::InOutItem;
use agentic_api::output::{OutputItem, OutputMessage};

fn message(role: &str, text: &str) -> InputItem {
    InputItem::from_message(InputMessage {
        role: role.to_string(),
        content: InputMessageContent::Text(text.to_string()),
    })
}

#[test]
fn test_inout_item_from_input() {
    let item: InOutItem = message("user", "hello").into();
    assert!(matches!(item, InOutItem::Input(_)));
}

#[test]
fn test_inout_item_from_output() {
    let output = OutputItem::Message(OutputMessage::new("msg_1", "completed"));
    let item: InOutItem = output.into();
    assert!(matches!(item, InOutItem::Output(_)));
}

#[test]
fn test_into_input_items_filters_outputs() {
    let items = vec![
        InOutItem::Input(message("user", "msg1")),
        InOutItem::Output(OutputItem::Message(OutputMessage::new("out1", "done"))),
        InOutItem::Input(message("assistant", "msg2")),
    ];

    let inputs = InOutItem::into_input_items(items);
    assert_eq!(inputs.len(), 2);
}

#[test]
fn into_input_items_keeps_order() {
    let items = vec![
        InOutItem::Output(OutputItem::Message(OutputMessage::new("out0", "done"))),
        InOutItem::Input(message("user", "first")),
        InOutItem::Input(message("assistant", "second")),
    ];
    let inputs = InOutItem::into_input_items(items);
    let roles: Vec<String> = inputs
        .iter()
        .map(|i| match i {
            InputItem::Message(m) => m.message.role.clone(),
            other => panic!("expected Message, got {other:?}"),
        })
        .collect();
    assert_eq!(roles, vec!["user", "assistant"]);
    assert!(InOutItem::into_input_items(vec![]).is_empty());
}
