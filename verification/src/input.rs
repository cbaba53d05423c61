//! Items of a Responses API `input` array, and the plain text of a
//! function-call result.

use vstd::prelude::*;

use crate::event::MessageStatus;
use crate::json::{json_to_string, spec_json_text, JsonValue};
use crate::output::{CustomToolCall, FunctionToolCall, ReasoningOutput, ReasoningTextContent};

verus! {

#[derive(Debug, Clone)]
pub struct InputTextContent {
    pub text: String,
}

#[derive(Debug, Clone)]
pub struct InputImageContent {
    pub image_url: Option<String>,
    pub detail: Option<String>,
}

/// Content item inside a message input. `OutputText` and `ReasoningText`
/// carry assistant text and reasoning text of rehydrated history.
#[derive(Debug, Clone)]
pub enum InputContent {
    InputText(InputTextContent),
    InputImage(InputImageContent),
    OutputText(InputTextContent),
    ReasoningText(InputTextContent),
    Unknown,
}

#[derive(Debug, Clone)]
pub struct InputMessage {
    pub role: String,
    pub content: InputMessageContent,
}

#[derive(Debug, Clone)]
pub enum InputMessageContent {
    Text(String),
    Parts(Vec<InputContent>),
}

impl InputMessage {
    /// The content as it is written on the wire: an assistant message given
    /// as plain text goes out as a single `output_text` part; any other
    /// message keeps its content.
    pub fn into_wire_content(self) -> (r: InputMessageContent)
        ensures
            match (self.content, r) {
                (InputMessageContent::Text(t), InputMessageContent::Parts(ps)) => self.role@ == "assistant"@
                    && ps@.len() == 1 && ps@[0] == InputContent::OutputText(InputTextContent { text: t }),
                (InputMessageContent::Text(t), InputMessageContent::Text(u)) => self.role@ != "assistant"@
                    && u == t,
                (InputMessageContent::Parts(ps), InputMessageContent::Parts(qs)) => qs == ps,
                _ => false,
            },
    {
        let InputMessage { role, content } = self;
        match content {
            InputMessageContent::Text(text) => {
                if crate::text::str_eq(role.as_str(), "assistant") {
                    let mut parts: Vec<InputContent> = Vec::new();
                    parts.push(InputContent::OutputText(InputTextContent { text }));
                    InputMessageContent::Parts(parts)
                } else {
                    InputMessageContent::Text(text)
                }
            },
            InputMessageContent::Parts(parts) => InputMessageContent::Parts(parts),
        }
    }
}

/// Function-call result output: a plain string, a list of content parts, or a
/// raw JSON object.
#[derive(Debug)]
pub enum FunctionToolResultOutput {
    Text(String),
    Parts(Vec<InputContent>),
    Object(JsonValue),
}

/// The text a content part contributes: that of `input_text` and
/// `output_text` parts; nothing for the others.
pub open spec fn part_text(p: InputContent) -> Option<Seq<char>> {
    match p {
        InputContent::InputText(c) => Some(c.text@),
        InputContent::OutputText(c) => Some(c.text@),
        _ => None,
    }
}

/// The texts of the parts that have one, in order.
pub open spec fn part_texts(ps: Seq<InputContent>) -> Seq<Seq<char>>
    decreases ps.len(),
{
    if ps.len() == 0 {
        Seq::empty()
    } else {
        let rest = part_texts(ps.drop_last());
        match part_text(ps.last()) {
            Some(t) => rest.push(t),
            None => rest,
        }
    }
}

/// The texts joined with a newline between each two.
pub open spec fn join_lines(xs: Seq<Seq<char>>) -> Seq<char>
    decreases xs.len(),
{
    if xs.len() == 0 {
        Seq::empty()
    } else if xs.len() == 1 {
        xs[0]
    } else {
        join_lines(xs.drop_last()) + seq!['\n'] + xs.last()
    }
}

/// Joining one more text keeps everything joined so far and adds a newline
/// and that text after it: every text is kept, in order.
pub proof fn lemma_join_lines_push(xs: Seq<Seq<char>>, t: Seq<char>)
    ensures
        xs.len() == 0 ==> join_lines(xs.push(t)) == t,
        xs.len() > 0 ==> join_lines(xs.push(t)) == join_lines(xs) + seq!['\n'] + t,
{
    assert(xs.push(t).drop_last() =~= xs);
}

/// The total length of some texts.
pub open spec fn total_len(xs: Seq<Seq<char>>) -> int
    decreases xs.len(),
{
    if xs.len() == 0 {
        0
    } else {
        total_len(xs.drop_last()) + xs.last().len()
    }
}

/// The joined text holds all the texts and one newline between each two.
pub proof fn lemma_join_lines_len(xs: Seq<Seq<char>>)
    ensures
        xs.len() > 0 ==> join_lines(xs).len() == total_len(xs) + xs.len() - 1,
    decreases xs.len(),
{
    if xs.len() > 1 {
        lemma_join_lines_len(xs.drop_last());
    } else if xs.len() == 1 {
        assert(total_len(xs.drop_last()) == 0);
    }
}

/// A text part adds its text after the texts of the parts before it; any
/// other part adds nothing.
pub proof fn lemma_part_texts_push(ps: Seq<InputContent>, p: InputContent)
    ensures
        p matches InputContent::InputText(c) ==> part_texts(ps.push(p)) == part_texts(ps).push(c.text@),
        p matches InputContent::OutputText(c) ==> part_texts(ps.push(p)) == part_texts(ps).push(c.text@),
        !(p is InputText || p is OutputText) ==> part_texts(ps.push(p)) == part_texts(ps),
{
    assert(ps.push(p).drop_last() =~= ps);
}

/// The plain-text representation of a function-call result.
pub open spec fn result_text(o: FunctionToolResultOutput) -> Seq<char> {
    match o {
        FunctionToolResultOutput::Text(s) => s@,
        FunctionToolResultOutput::Object(v) => spec_json_text(v),
        FunctionToolResultOutput::Parts(ps) => join_lines(part_texts(ps@)),
    }
}

/// A single `input_text` part reads as its text, and parts without text
/// read as empty text.
pub proof fn lemma_result_text_cases(c: InputTextContent, ps: Seq<InputContent>)
    ensures
        join_lines(part_texts(seq![InputContent::InputText(c)])) == c.text@,
        (forall|i: int| 0 <= i < ps.len() ==> part_text(#[trigger] ps[i]) is None) ==> join_lines(
            part_texts(ps),
        ) == Seq::<char>::empty(),
{
    let one = seq![InputContent::InputText(c)];
    assert(one.drop_last() =~= Seq::<InputContent>::empty());
    assert(part_texts(one.drop_last()) == Seq::<Seq<char>>::empty());
    assert(part_texts(one) =~= seq![c.text@]);
    if forall|i: int| 0 <= i < ps.len() ==> part_text(#[trigger] ps[i]) is None {
        lemma_part_texts_none(ps);
    }
}

proof fn lemma_part_texts_none(ps: Seq<InputContent>)
    requires
        forall|i: int| 0 <= i < ps.len() ==> part_text(#[trigger] ps[i]) is None,
    ensures
        part_texts(ps).len() == 0,
    decreases ps.len(),
{
    if ps.len() > 0 {
        let r = ps.drop_last();
        assert forall|i: int| 0 <= i < r.len() implies part_text(#[trigger] r[i]) is None by {
            assert(r[i] == ps[i]);
        }
        lemma_part_texts_none(r);
        assert(part_text(ps[ps.len() - 1]) is None);
    }
}

impl FunctionToolResultOutput {
    /// The plain text of this output: the string itself, the JSON text of an
    /// object, or the texts of the `input_text`/`output_text` parts joined by
    /// newlines (empty when there are none).
    pub fn to_text(&self) -> (r: String)
        ensures
            r@ == result_text(*self),
    {
        match self {
            Self::Text(s) => s.clone(),
            Self::Object(v) => json_to_string(v),
            Self::Parts(parts) => {
                let mut out = String::new();
                let mut count: usize = 0;
                let n = parts.len();
                proof {
                    reveal_strlit("\n");
                    assert(parts@.take(0) =~= Seq::<InputContent>::empty());
                }
                for i in 0..n
                    invariant
                        n == parts@.len(),
                        count == part_texts(parts@.take(i as int)).len(),
                        count <= i,
                        out@ == join_lines(part_texts(parts@.take(i as int))),
                        "\n"@ == seq!['\n'],
                {
                    let ghost before = parts@.take(i as int);
                    proof {
                        assert(parts@.take(i + 1).drop_last() =~= before);
                        assert(parts@.take(i + 1).last() == parts@[i as int]);
                    }
                    let text: Option<&String> = match &parts[i] {
                        InputContent::InputText(c) => Some(&c.text),
                        InputContent::OutputText(c) => Some(&c.text),
                        _ => None,
                    };
                    let ghost xs = part_texts(before);
                    if let Some(t) = text {
                        proof {
                            assert(xs.push(t@).drop_last() =~= xs);
                        }
                        if count > 0 {
                            out.append("\n");
                        }
                        out.append(t.as_str());
                        count = count + 1;
                        proof {
                            if xs.len() == 0 {
                                assert(out@ =~= t@);
                            } else {
                                assert(out@ =~= join_lines(xs) + seq!['\n'] + t@);
                            }
                        }
                    }
                }
                proof {
                    assert(parts@.take(n as int) =~= parts@);
                }
                out
            },
        }
    }
}

#[derive(Debug)]
pub struct FunctionToolResultMessage {
    pub call_id: String,
    pub output: FunctionToolResultOutput,
}

/// Client result for a freeform custom tool call.
#[derive(Debug)]
pub struct CustomToolCallOutputMessage {
    pub call_id: String,
    pub name: Option<String>,
    pub output: JsonValue,
}

/// Wire wrapper for `function_call_output` input items.
#[derive(Debug)]
pub struct InputItemFunctionCallOutput {
    pub type_: String,
    pub call_id: String,
    pub output: FunctionToolResultOutput,
}

/// Wire wrapper for `function_call` input items.
#[derive(Debug, Clone)]
pub struct InputItemFunctionCall {
    pub type_: String,
    pub id: String,
    pub call_id: String,
    pub name: String,
    pub namespace: Option<String>,
    pub arguments: String,
}

/// Wire wrapper for `custom_tool_call` input items.
#[derive(Debug, Clone)]
pub struct InputItemCustomToolCall {
    pub type_: String,
    pub id: String,
    pub status: Option<MessageStatus>,
    pub call_id: String,
    pub name: String,
    pub input: String,
}

/// Wire wrapper for `custom_tool_call_output` input items.
#[derive(Debug)]
pub struct InputItemCustomToolCallOutput {
    pub type_: String,
    pub call_id: String,
    pub name: Option<String>,
    pub output: JsonValue,
}

/// Wire wrapper for `reasoning` input items.
#[derive(Debug)]
pub struct InputItemReasoning {
    pub type_: String,
    pub id: String,
    pub content: Vec<ReasoningTextContent>,
    pub summary: Vec<JsonValue>,
    pub encrypted_content: Option<JsonValue>,
}

/// Wire wrapper for `message` input items.
#[derive(Debug, Clone)]
pub struct InputItemMessage {
    pub type_: String,
    pub message: InputMessage,
}

/// The `type` tag of `function_call_output` items.
pub fn default_fco_type() -> (r: String)
    ensures
        r@ == "function_call_output"@,
{
    "function_call_output".to_owned()
}

/// The `type` tag of `function_call` items.
pub fn default_fc_type() -> (r: String)
    ensures
        r@ == "function_call"@,
{
    "function_call".to_owned()
}

/// The `type` tag of `custom_tool_call` items.
pub fn default_ctc_type() -> (r: String)
    ensures
        r@ == "custom_tool_call"@,
{
    "custom_tool_call".to_owned()
}

/// The `type` tag of `custom_tool_call_output` items.
pub fn default_ctco_type() -> (r: String)
    ensures
        r@ == "custom_tool_call_output"@,
{
    "custom_tool_call_output".to_owned()
}

/// The `type` tag of `reasoning` items.
pub fn default_reasoning_type() -> (r: String)
    ensures
        r@ == "reasoning"@,
{
    "reasoning".to_owned()
}

/// The `type` tag of `message` items.
pub fn default_message_type() -> (r: String)
    ensures
        r@ == "message"@,
{
    "message".to_owned()
}

/// An input item for the Responses API `input` array.
#[derive(Debug)]
pub enum InputItem {
    FunctionCallOutput(InputItemFunctionCallOutput),
    CustomToolCallOutput(InputItemCustomToolCallOutput),
    FunctionCall(InputItemFunctionCall),
    CustomToolCall(InputItemCustomToolCall),
    Reasoning(InputItemReasoning),
    Message(InputItemMessage),
}

impl InputItem {
    /// A `function_call_output` item carrying a function's result.
    pub fn from_function_result(msg: FunctionToolResultMessage) -> (r: Self)
        ensures
            r matches InputItem::FunctionCallOutput(w) && w.type_@ == "function_call_output"@
                && w.call_id == msg.call_id && w.output == msg.output,
    {
        InputItem::FunctionCallOutput(
            InputItemFunctionCallOutput {
                type_: default_fco_type(),
                call_id: msg.call_id,
                output: msg.output,
            },
        )
    }

    /// A `custom_tool_call_output` item carrying a custom tool's result.
    pub fn from_custom_tool_output(msg: CustomToolCallOutputMessage) -> (r: Self)
        ensures
            r matches InputItem::CustomToolCallOutput(w) && w.type_@ == "custom_tool_call_output"@
                && w.call_id == msg.call_id && w.name == msg.name && w.output == msg.output,
    {
        InputItem::CustomToolCallOutput(
            InputItemCustomToolCallOutput {
                type_: default_ctco_type(),
                call_id: msg.call_id,
                name: msg.name,
                output: msg.output,
            },
        )
    }

    /// A `function_call` item replaying a model's function call.
    pub fn from_function_call(call: FunctionToolCall) -> (r: Self)
        ensures
            r matches InputItem::FunctionCall(w) && w.type_@ == "function_call"@ && w.id == call.id
                && w.call_id == call.call_id && w.name == call.name && w.namespace == call.namespace
                && w.arguments == call.arguments,
    {
        InputItem::FunctionCall(
            InputItemFunctionCall {
                type_: default_fc_type(),
                id: call.id,
                call_id: call.call_id,
                name: call.name,
                namespace: call.namespace,
                arguments: call.arguments,
            },
        )
    }

    /// A `custom_tool_call` item replaying a model's custom tool call.
    pub fn from_custom_tool_call(call: CustomToolCall) -> (r: Self)
        ensures
            r matches InputItem::CustomToolCall(w) && w.type_@ == "custom_tool_call"@ && w.id == call.id
                && w.status == call.status && w.call_id == call.call_id && w.name == call.name
                && w.input == call.input,
    {
        InputItem::CustomToolCall(
            InputItemCustomToolCall {
                type_: default_ctc_type(),
                id: call.id,
                status: call.status,
                call_id: call.call_id,
                name: call.name,
                input: call.input,
            },
        )
    }

    /// A `reasoning` item replaying a reasoning step.
    pub fn from_reasoning(r: ReasoningOutput) -> (item: Self)
        ensures
            item matches InputItem::Reasoning(w) && w.type_@ == "reasoning"@ && w.id == r.id
                && w.content == r.content && w.summary == r.summary && w.encrypted_content
                == r.encrypted_content,
    {
        InputItem::Reasoning(
            InputItemReasoning {
                type_: default_reasoning_type(),
                id: r.id,
                content: r.content,
                summary: r.summary,
                encrypted_content: r.encrypted_content,
            },
        )
    }

    /// A `message` item carrying a message.
    pub fn from_message(msg: InputMessage) -> (r: Self)
        ensures
            r matches InputItem::Message(w) && w.type_@ == "message"@ && w.message == msg,
    {
        InputItem::Message(InputItemMessage { type_: default_message_type(), message: msg })
    }
}

#[derive(Debug)]
pub enum ResponsesInput {
    Text(String),
    Items(Vec<InputItem>),
}

} // verus!
