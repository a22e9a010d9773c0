//! The conversation of a thread, and the form in which it goes to a model provider.

use serde_json::Value;
use vstd::prelude::*;

use crate::json::{
    json_escaped, json_parse, json_quoted, json_text, law_characters_are_escaped_one_by_one,
    parse_json, text_object,
};

verus! {

/// Who speaks in a message of a conversation.
#[derive(Clone, Copy, Debug, PartialEq, Eq, Structural)]
pub enum MessageRole {
    System,
    User,
    Assistant,
    Tool,
}

/// A part of a message of a conversation.
#[derive(Debug)]
pub enum ContentBlock {
    Text { text: String },
    ToolUse { id: String, name: String, input: String },
    ToolResult { tool_use_id: String, output: String, is_error: bool },
}

/// A message of a conversation.
#[derive(Debug)]
pub struct ConversationMessage {
    pub role: MessageRole,
    pub blocks: Vec<ContentBlock>,
}

/// A part of what a tool gave back, as a provider takes it.
#[derive(Debug)]
pub enum ToolResultContentBlock {
    Text { text: String },
}

/// A part of a message, as a provider takes it.
#[derive(Debug)]
pub enum InputContentBlock {
    Text { text: String },
    ToolUse { id: String, name: String, input: Value },
    ToolResult { tool_use_id: String, content: Vec<ToolResultContentBlock>, is_error: bool },
}

/// A message, as a provider takes it.
#[derive(Debug)]
pub struct InputMessage {
    pub role: String,
    pub content: Vec<InputContentBlock>,
}

/// What a [`ContentBlock`] holds.
pub enum ContentBlockView {
    Text { text: Seq<char> },
    ToolUse { id: Seq<char>, name: Seq<char>, input: Seq<char> },
    ToolResult { tool_use_id: Seq<char>, output: Seq<char>, is_error: bool },
}

/// What a [`ConversationMessage`] holds.
pub struct ConversationMessageView {
    pub role: MessageRole,
    pub blocks: Seq<ContentBlockView>,
}

/// What an [`InputContentBlock`] holds. The input of a tool is given by its compact text.
pub enum InputContentBlockView {
    Text { text: Seq<char> },
    ToolUse { id: Seq<char>, name: Seq<char>, input: Seq<char> },
    ToolResult { tool_use_id: Seq<char>, content: Seq<Seq<char>>, is_error: bool },
}

/// What an [`InputMessage`] holds.
pub struct InputMessageView {
    pub role: Seq<char>,
    pub content: Seq<InputContentBlockView>,
}

impl View for ContentBlock {
    type V = ContentBlockView;

    open spec fn view(&self) -> ContentBlockView {
        match *self {
            ContentBlock::Text { text } => ContentBlockView::Text { text: text@ },
            ContentBlock::ToolUse { id, name, input } => ContentBlockView::ToolUse {
                id: id@,
                name: name@,
                input: input@,
            },
            ContentBlock::ToolResult { tool_use_id, output, is_error } => {
                ContentBlockView::ToolResult {
                    tool_use_id: tool_use_id@,
                    output: output@,
                    is_error,
                }
            },
        }
    }
}

impl View for ConversationMessage {
    type V = ConversationMessageView;

    open spec fn view(&self) -> ConversationMessageView {
        ConversationMessageView {
            role: self.role,
            blocks: self.blocks@.map_values(|block: ContentBlock| block@),
        }
    }
}

impl View for ToolResultContentBlock {
    type V = Seq<char>;

    open spec fn view(&self) -> Seq<char> {
        match *self {
            ToolResultContentBlock::Text { text } => text@,
        }
    }
}

impl View for InputContentBlock {
    type V = InputContentBlockView;

    open spec fn view(&self) -> InputContentBlockView {
        match *self {
            InputContentBlock::Text { text } => InputContentBlockView::Text { text: text@ },
            InputContentBlock::ToolUse { id, name, input } => InputContentBlockView::ToolUse {
                id: id@,
                name: name@,
                input: json_text(input),
            },
            InputContentBlock::ToolResult { tool_use_id, content, is_error } => {
                InputContentBlockView::ToolResult {
                    tool_use_id: tool_use_id@,
                    content: content@.map_values(|part: ToolResultContentBlock| part@),
                    is_error,
                }
            },
        }
    }
}

impl View for InputMessage {
    type V = InputMessageView;

    open spec fn view(&self) -> InputMessageView {
        InputMessageView {
            role: self.role@,
            content: self.content@.map_values(|block: InputContentBlock| block@),
        }
    }
}

/// What the messages of a conversation hold.
pub open spec fn message_views(messages: Seq<ConversationMessage>) -> Seq<
    ConversationMessageView,
> {
    messages.map_values(|message: ConversationMessage| message@)
}

/// What the messages for a provider hold.
pub open spec fn input_views(messages: Seq<InputMessage>) -> Seq<InputMessageView> {
    messages.map_values(|message: InputMessage| message@)
}

/// The name that a provider knows a role by: it tells the assistant from all others.
pub open spec fn role_name(role: MessageRole) -> Seq<char> {
    match role {
        MessageRole::System | MessageRole::User | MessageRole::Tool => "user"@,
        MessageRole::Assistant => "assistant"@,
    }
}

/// The compact text of the object that stands for a tool input that is no JSON.
pub open spec fn raw_input(text: Seq<char>) -> Seq<char> {
    "{"@ + json_quoted("raw"@) + ":"@ + json_quoted(text) + "}"@
}

/// The compact text of a tool input, given what parsing its text came to.
pub open spec fn input_text(text: Seq<char>, parsed: Result<Value, Seq<char>>) -> Seq<char> {
    match parsed {
        Ok(value) => json_text(value),
        Err(_) => raw_input(text),
    }
}

/// A part of a message in the form for a provider.
pub open spec fn converted_block(block: ContentBlockView) -> InputContentBlockView {
    match block {
        ContentBlockView::Text { text } => InputContentBlockView::Text { text },
        ContentBlockView::ToolUse { id, name, input } => InputContentBlockView::ToolUse {
            id,
            name,
            input: input_text(input, json_parse(input)),
        },
        ContentBlockView::ToolResult { tool_use_id, output, is_error } => {
            InputContentBlockView::ToolResult { tool_use_id, content: seq![output], is_error }
        },
    }
}

/// A message in the form for a provider.
pub open spec fn converted_message(message: ConversationMessageView) -> InputMessageView {
    InputMessageView {
        role: role_name(message.role),
        content: message.blocks.map_values(|block: ContentBlockView| converted_block(block)),
    }
}

/// A conversation in the form for a provider: its messages in order, but for those
/// that have no part.
pub open spec fn converted(messages: Seq<ConversationMessageView>) -> Seq<InputMessageView> {
    messages.filter(|message: ConversationMessageView| message.blocks.len() > 0).map_values(
        |message: ConversationMessageView| converted_message(message),
    )
}

/// The input of a tool, given what parsing its text came to: the parsed value or, where
/// the text is no JSON, an object that has the text under `raw`.
pub fn tool_input(text: &str, parsed: Result<Value, String>) -> (r: Value)
    ensures
        match parsed {
            Ok(value) => r == value,
            Err(_) => json_text(r) == raw_input(text@),
        },
{
    match parsed {
        Ok(value) => value,
        Err(_) => text_object("raw", text),
    }
}

/// A part of a message in the form for a provider.
pub fn convert_block(block: &ContentBlock) -> (r: InputContentBlock)
    ensures
        r@ == converted_block(block@),
{
    match block {
        ContentBlock::Text { text } => InputContentBlock::Text { text: text.clone() },
        ContentBlock::ToolUse { id, name, input } => {
            let parsed = parse_json(input.as_str());
            InputContentBlock::ToolUse {
                id: id.clone(),
                name: name.clone(),
                input: tool_input(input.as_str(), parsed),
            }
        },
        ContentBlock::ToolResult { tool_use_id, output, is_error } => {
            let mut content: Vec<ToolResultContentBlock> = Vec::new();
            content.push(ToolResultContentBlock::Text { text: output.clone() });
            assert(content@.map_values(|part: ToolResultContentBlock| part@) == seq![output@]);
            InputContentBlock::ToolResult {
                tool_use_id: tool_use_id.clone(),
                content,
                is_error: *is_error,
            }
        },
    }
}

/// The name that a provider knows a role by.
fn role_text(role: MessageRole) -> (r: String)
    ensures
        r@ == role_name(role),
{
    match role {
        MessageRole::System | MessageRole::User | MessageRole::Tool => "user".to_string(),
        MessageRole::Assistant => "assistant".to_string(),
    }
}

/// A conversation in the form for a provider. A message without any part is left out.
pub fn convert_messages(messages: &[ConversationMessage]) -> (r: Vec<InputMessage>)
    ensures
        input_views(r@) == converted(message_views(messages@)),
{
    let mut out: Vec<InputMessage> = Vec::new();
    let ghost all = message_views(messages@);
    let ghost kept = |message: ConversationMessageView| message.blocks.len() > 0;
    proof {
        reveal(Seq::filter);
    }
    for i in 0..messages.len()
        invariant
            all == message_views(messages@),
            kept == (|message: ConversationMessageView| message.blocks.len() > 0),
            input_views(out@) == converted(all.take(i as int)),
    {
        let message = &messages[i];
        let mut content: Vec<InputContentBlock> = Vec::new();
        for j in 0..message.blocks.len()
            invariant
                content@.len() == j,
                forall|k: int|
                    0 <= k < j ==> (#[trigger] content@[k])@ == converted_block(
                        message.blocks@[k]@,
                    ),
        {
            content.push(convert_block(&message.blocks[j]));
        }
        let ghost head = input_views(out@);
        proof {
            reveal(Seq::filter);
            assert(all.take(i + 1).drop_last() == all.take(i as int));
            assert(all.take(i + 1).last() == message@);
        }
        if content.len() > 0 {
            let next = InputMessage { role: role_text(message.role), content };
            assert(next@.content == converted_message(message@).content);
            out.push(next);
            assert(input_views(out@) == head.push(converted_message(message@)));
            assert(all.take(i + 1).filter(kept) == all.take(i as int).filter(kept).push(message@));
            assert(converted(all.take(i + 1)) == converted(all.take(i as int)).push(
                converted_message(message@),
            ));
        } else {
            assert(all.take(i + 1).filter(kept) == all.take(i as int).filter(kept));
        }
    }
    assert(all.take(all.len() as int) == all);
    out
}

/// No message without a part goes to a provider, and every one that does is the user's or
/// the assistant's.
pub proof fn law_messages_for_providers(messages: Seq<ConversationMessageView>)
    ensures
        forall|k: int|
            0 <= k < converted(messages).len() ==> {
                &&& (#[trigger] converted(messages)[k]).content.len() > 0
                &&& converted(messages)[k].role == "user"@ || converted(messages)[k].role
                    == "assistant"@
            },
{
    let kept = |message: ConversationMessageView| message.blocks.len() > 0;
    assert forall|k: int| 0 <= k < converted(messages).len() implies {
        &&& (#[trigger] converted(messages)[k]).content.len() > 0
        &&& converted(messages)[k].role == "user"@ || converted(messages)[k].role == "assistant"@
    } by {
        assert(kept(messages.filter(kept)[k]));
        assert(converted(messages)[k] == converted_message(messages.filter(kept)[k]));
    }
}

/// What was said before goes to a provider in the same form, whatever is said after it.
pub proof fn law_conversations_grow_at_the_end(
    messages: Seq<ConversationMessageView>,
    later: Seq<ConversationMessageView>,
)
    ensures
        converted(messages + later) == converted(messages) + converted(later),
{
    let kept = |message: ConversationMessageView| message.blocks.len() > 0;
    Seq::filter_distributes_over_add(messages, later, kept);
    assert(converted(messages + later) =~= converted(messages) + converted(later));
}

/// Each part of a message reaches a provider with all that it holds. A text stays the text
/// it was. A tool call keeps its identifier and its name, and its input is the value that
/// the text of it was parsed to or, where it is no JSON, that text under `raw`. A tool
/// result keeps the identifier of its call, has its output as its one text, and is an error
/// if and only if it was one.
pub proof fn law_parts_reach_a_provider_whole(block: ContentBlockView)
    ensures
        block matches ContentBlockView::Text { text } ==> converted_block(block) == (
        InputContentBlockView::Text { text }),
        block matches ContentBlockView::ToolUse { id, name, input } ==> {
            let sent = converted_block(block);
            &&& sent is ToolUse
            &&& sent->ToolUse_id == id
            &&& sent->ToolUse_name == name
            &&& json_parse(input) matches Ok(value) ==> sent->ToolUse_input == json_text(value)
            &&& json_parse(input) is Err ==> sent->ToolUse_input == "{\"raw\":\""@ + json_escaped(
                input,
            ) + "\"}"@
        },
        block matches ContentBlockView::ToolResult { tool_use_id, output, is_error } ==> {
            let sent = converted_block(block);
            &&& sent is ToolResult
            &&& sent->ToolResult_tool_use_id == tool_use_id
            &&& sent->ToolResult_content.len() == 1
            &&& sent->ToolResult_content[0] == output
            &&& sent->ToolResult_is_error == is_error
        },
{
    if let ContentBlockView::ToolUse { id, name, input } = block {
        lemma_raw_input(input);
    }
}

/// What stands for a tool input that is no JSON, written out.
proof fn lemma_raw_input(text: Seq<char>)
    ensures
        raw_input(text) == "{\"raw\":\""@ + json_escaped(text) + "\"}"@,
{
    reveal_strlit("{");
    reveal_strlit("raw");
    reveal_strlit(":");
    reveal_strlit("}");
    reveal_strlit("{\"raw\":\"");
    reveal_strlit("\"}");
    let raw = "raw"@;
    assert(raw =~= seq!['r'] + seq!['a'] + seq!['w']);
    law_characters_are_escaped_one_by_one('r', seq!['r'] + seq!['a'], seq!['w']);
    law_characters_are_escaped_one_by_one('a', seq!['r'], seq!['a']);
    law_characters_are_escaped_one_by_one('w', seq!['r'], seq!['a']);
    assert(json_escaped(raw) =~= raw);
    assert("{\"raw\":\""@ =~= "{"@ + (seq!['"'] + raw + seq!['"']) + ":"@ + seq!['"']);
    assert("\"}"@ =~= seq!['"'] + "}"@);
    assert(raw_input(text) =~= "{\"raw\":\""@ + json_escaped(text) + "\"}"@);
}

/// A message with parts reaches a provider as one message: the assistant's as the
/// assistant's, any other as the user's, with each of its parts in its place. A message
/// without a part does not reach it. Together with [`law_conversations_grow_at_the_end`],
/// this says what becomes of every conversation.
pub proof fn law_a_message_reaches_a_provider_whole(message: ConversationMessageView)
    ensures
        ({
            let sent = converted(seq![message]);
            &&& message.blocks.len() == 0 ==> sent.len() == 0
            &&& message.blocks.len() > 0 ==> {
                &&& sent.len() == 1
                &&& message.role is Assistant ==> sent[0].role == "assistant"@
                &&& !(message.role is Assistant) ==> sent[0].role == "user"@
                &&& sent[0].content.len() == message.blocks.len()
                &&& forall|i: int|
                    0 <= i < message.blocks.len() ==> #[trigger] sent[0].content[i]
                        == converted_block(message.blocks[i])
            }
        }),
{
    reveal(Seq::filter);
    let kept = |message: ConversationMessageView| message.blocks.len() > 0;
    let one = seq![message];
    reveal_with_fuel(Seq::filter, 2);
    assert(one.drop_last() == Seq::<ConversationMessageView>::empty());
    assert(one.drop_last().filter(kept) == Seq::<ConversationMessageView>::empty());
    if message.blocks.len() > 0 {
        assert(one.filter(kept) == one);
        assert(converted(one)[0] == converted_message(message));
    } else {
        assert(one.filter(kept).len() == 0);
    }
}

/// The parts of a conversation are taken for what they hold, field by field.
pub proof fn law_parts_are_what_they_hold(
    block: ContentBlock,
    message: ConversationMessage,
    messages: Seq<ConversationMessage>,
)
    ensures
        block is Text <==> block@ is Text,
        block is ToolUse <==> block@ is ToolUse,
        block matches ContentBlock::Text { text } ==> block@->Text_text == text@,
        block matches ContentBlock::ToolUse { id, name, input } ==> {
            &&& block@->ToolUse_id == id@
            &&& block@->ToolUse_name == name@
            &&& block@->ToolUse_input == input@
        },
        block matches ContentBlock::ToolResult { tool_use_id, output, is_error } ==> {
            &&& block@->ToolResult_tool_use_id == tool_use_id@
            &&& block@->ToolResult_output == output@
            &&& block@->ToolResult_is_error == is_error
        },
        message@.role == message.role,
        message@.blocks.len() == message.blocks@.len(),
        forall|i: int|
            0 <= i < message.blocks@.len() ==> #[trigger] message@.blocks[i] == message.blocks@[i]@,
        message_views(messages).len() == messages.len(),
        forall|i: int|
            0 <= i < messages.len() ==> #[trigger] message_views(messages)[i] == messages[i]@,
{
}

/// What goes to a provider is taken for what it holds, field by field.
pub proof fn law_provider_messages_are_what_they_hold(
    part: ToolResultContentBlock,
    block: InputContentBlock,
    message: InputMessage,
    messages: Seq<InputMessage>,
)
    ensures
        part matches ToolResultContentBlock::Text { text } ==> part@ == text@,
        block is Text <==> block@ is Text,
        block is ToolUse <==> block@ is ToolUse,
        block matches InputContentBlock::Text { text } ==> block@->Text_text == text@,
        block matches InputContentBlock::ToolUse { id, name, input } ==> {
            &&& block@->ToolUse_id == id@
            &&& block@->ToolUse_name == name@
            &&& block@->ToolUse_input == json_text(input)
        },
        block matches InputContentBlock::ToolResult { tool_use_id, content, is_error } ==> {
            &&& block@->ToolResult_tool_use_id == tool_use_id@
            &&& block@->ToolResult_content.len() == content@.len()
            &&& forall|i: int|
                0 <= i < content@.len() ==> #[trigger] block@->ToolResult_content[i]
                    == content@[i]@
            &&& block@->ToolResult_is_error == is_error
        },
        message@.role == message.role@,
        message@.content.len() == message.content@.len(),
        forall|i: int|
            0 <= i < message.content@.len() ==> #[trigger] message@.content[i]
                == message.content@[i]@,
        input_views(messages).len() == messages.len(),
        forall|i: int|
            0 <= i < messages.len() ==> #[trigger] input_views(messages)[i] == messages[i]@,
{
}

} // verus!
