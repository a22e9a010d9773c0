//! What a provider answers, as the events that a conversation takes in.

use serde_json::Value;
use std::collections::BTreeMap;
use vstd::prelude::*;

use crate::json::{is_empty_object, json_text, print_json};

verus! {

/// A part of a provider's answer.
#[derive(Debug)]
pub enum OutputContentBlock {
    Text { text: String },
    ToolUse { id: String, name: String, input: Value },
    Thinking,
    RedactedThinking,
}

/// A provider's answer, with its account of the tokens used.
#[derive(Debug)]
pub struct MessageResponse<U> {
    pub content: Vec<OutputContentBlock>,
    pub usage: U,
}

/// An event of the assistant's turn.
#[derive(Debug)]
pub enum AssistantEvent<U> {
    TextDelta(String),
    ToolUse { id: String, name: String, input: String },
    Usage(U),
    MessageStop,
}

/// What an [`OutputContentBlock`] holds. The input of a tool is given by its compact text.
pub enum OutputContentBlockView {
    Text { text: Seq<char> },
    ToolUse { id: Seq<char>, name: Seq<char>, input: Seq<char> },
    Thinking,
    RedactedThinking,
}

/// What an [`AssistantEvent`] holds.
pub enum AssistantEventView<U> {
    TextDelta(Seq<char>),
    ToolUse { id: Seq<char>, name: Seq<char>, input: Seq<char> },
    Usage(U),
    MessageStop,
}

impl View for OutputContentBlock {
    type V = OutputContentBlockView;

    open spec fn view(&self) -> OutputContentBlockView {
        match *self {
            OutputContentBlock::Text { text } => OutputContentBlockView::Text { text: text@ },
            OutputContentBlock::ToolUse { id, name, input } => OutputContentBlockView::ToolUse {
                id: id@,
                name: name@,
                input: json_text(input),
            },
            OutputContentBlock::Thinking => OutputContentBlockView::Thinking,
            OutputContentBlock::RedactedThinking => OutputContentBlockView::RedactedThinking,
        }
    }
}

impl<U> View for AssistantEvent<U> {
    type V = AssistantEventView<U>;

    open spec fn view(&self) -> AssistantEventView<U> {
        match *self {
            AssistantEvent::TextDelta(text) => AssistantEventView::TextDelta(text@),
            AssistantEvent::ToolUse { id, name, input } => AssistantEventView::ToolUse {
                id: id@,
                name: name@,
                input: input@,
            },
            AssistantEvent::Usage(usage) => AssistantEventView::Usage(usage),
            AssistantEvent::MessageStop => AssistantEventView::MessageStop,
        }
    }
}

/// What the parts of an answer hold.
pub open spec fn block_views(content: Seq<OutputContentBlock>) -> Seq<OutputContentBlockView> {
    content.map_values(|block: OutputContentBlock| block@)
}

/// What the events of a turn hold.
pub open spec fn event_views<U>(events: Seq<AssistantEvent<U>>) -> Seq<AssistantEventView<U>> {
    events.map_values(|event: AssistantEvent<U>| event@)
}

/// What a tool call that waits for its input holds: its identifier, name and input.
pub open spec fn pending_view(call: (String, String, String)) -> (Seq<char>, Seq<char>, Seq<char>) {
    (call.0@, call.1@, call.2@)
}

/// What the waiting tool calls hold, by the index of their part.
pub open spec fn pending_views(pending: Map<u32, (String, String, String)>) -> Map<
    u32,
    (Seq<char>, Seq<char>, Seq<char>),
> {
    pending.map_values(|call: (String, String, String)| pending_view(call))
}

/// The text that a tool's input starts from. While an input is streamed, an empty object
/// stands for one that has yet to come.
pub open spec fn initial_input(input: Seq<char>, streaming: bool) -> Seq<char> {
    if streaming && input == "{}"@ {
        Seq::empty()
    } else {
        input
    }
}

/// The events that a part of an answer comes to.
pub open spec fn block_events<U>(block: OutputContentBlockView) -> Seq<AssistantEventView<U>> {
    match block {
        OutputContentBlockView::Text { text } => if text.len() == 0 {
            Seq::empty()
        } else {
            seq![AssistantEventView::TextDelta(text)]
        },
        OutputContentBlockView::ToolUse { id, name, input } => seq![
            AssistantEventView::ToolUse { id, name, input },
        ],
        OutputContentBlockView::Thinking | OutputContentBlockView::RedactedThinking => Seq::empty(),
    }
}

/// The events that the parts of an answer come to, in order.
pub open spec fn content_events<U>(content: Seq<OutputContentBlockView>) -> Seq<
    AssistantEventView<U>,
>
    decreases content.len(),
{
    if content.len() == 0 {
        Seq::empty()
    } else {
        content_events::<U>(content.drop_last()) + block_events::<U>(content.last())
    }
}

/// The events that an answer comes to: those of its parts, then its account of tokens,
/// then the end of the message.
pub open spec fn response_events<U>(content: Seq<OutputContentBlockView>, usage: U) -> Seq<
    AssistantEventView<U>,
> {
    content_events::<U>(content) + seq![
        AssistantEventView::Usage(usage),
        AssistantEventView::MessageStop,
    ]
}

/// Takes in one part of an answer. Text that is not empty becomes an event, a tool call
/// is put down under the index of its part, and thinking is passed over.
pub fn push_output_block<U>(
    block: OutputContentBlock,
    block_index: u32,
    events: &mut Vec<AssistantEvent<U>>,
    pending_tools: &mut BTreeMap<u32, (String, String, String)>,
    streaming_tool_input: bool,
)
    ensures
        match block@ {
            OutputContentBlockView::Text { text } => {
                &&& event_views(final(events)@) == event_views(old(events)@) + block_events::<U>(
                    block@,
                )
                &&& final(pending_tools)@ == old(pending_tools)@
            },
            OutputContentBlockView::ToolUse { id, name, input } => {
                &&& final(events)@ == old(events)@
                &&& pending_views(final(pending_tools)@) == pending_views(
                    old(pending_tools)@,
                ).insert(block_index, (id, name, initial_input(input, streaming_tool_input)))
            },
            OutputContentBlockView::Thinking | OutputContentBlockView::RedactedThinking => {
                &&& final(events)@ == old(events)@
                &&& final(pending_tools)@ == old(pending_tools)@
            },
        },
{
    match block {
        OutputContentBlock::Text { text } => {
            if !text.as_str().is_empty() {
                events.push(AssistantEvent::TextDelta(text));
            }
        },
        OutputContentBlock::ToolUse { id, name, input } => {
            let initial_input = if streaming_tool_input && is_empty_object(&input) {
                String::new()
            } else {
                print_json(&input)
            };
            pending_tools.insert(block_index, (id, name, initial_input));
        },
        OutputContentBlock::Thinking | OutputContentBlock::RedactedThinking => {},
    }
}

/// The events that an answer comes to. A part is counted by an index of 32 bits.
pub fn response_to_events<U>(response: MessageResponse<U>) -> (r: Vec<AssistantEvent<U>>)
    requires
        response.content@.len() <= u32::MAX + 1,
    ensures
        event_views(r@) == response_events(block_views(response.content@), response.usage),
{
    let MessageResponse { content, usage } = response;
    let ghost all = block_views(content@);
    let mut events: Vec<AssistantEvent<U>> = Vec::new();
    let mut pending_tools: BTreeMap<u32, (String, String, String)> = BTreeMap::new();
    let count: usize = content.len();
    let mut index: usize = 0;
    for block in it: content.into_iter()
        invariant
            it.seq() == content@,
            all == block_views(content@),
            all.len() == count <= u32::MAX + 1,
            index == it.index(),
            pending_tools@ == Map::<u32, (String, String, String)>::empty(),
            event_views(events@) == content_events::<U>(all.take(index as int)),
    {
        let block_index: u32 = index as u32;
        let ghost view = block@;
        let ghost head = event_views(events@);
        assert(view == all[index as int]);
        push_output_block(block, block_index, &mut events, &mut pending_tools, false);
        proof {
            let waiting = pending_views(pending_tools@);
            assert forall|k: u32| #[trigger] pending_tools@.contains_key(k) implies k
                == block_index by {
                assert(waiting.contains_key(k));
            }
            if view is ToolUse {
                assert(waiting.contains_key(block_index));
                assert(waiting[block_index] == pending_view(pending_tools@[block_index]));
            }
        }
        if let Some((id, name, input)) = pending_tools.remove(&block_index) {
            events.push(AssistantEvent::ToolUse { id, name, input });
        }
        assert(event_views(events@) == head + block_events::<U>(view));
        assert(all.take(index + 1).drop_last() == all.take(index as int));
        index = index + 1;
    }
    assert(all.take(all.len() as int) == all);
    events.push(AssistantEvent::Usage(usage));
    events.push(AssistantEvent::MessageStop);
    events
}

/// The events of an answer end with its account of tokens and the end of the message, and
/// neither comes before.
pub proof fn law_answer_ends_once<U>(content: Seq<OutputContentBlockView>, usage: U)
    ensures
        ({
            let events = response_events(content, usage);
            let n = events.len() as int;
            &&& n >= 2
            &&& events[n - 2] == AssistantEventView::Usage(usage)
            &&& events[n - 1] == AssistantEventView::<U>::MessageStop
            &&& forall|k: int|
                0 <= k < n - 2 ==> (#[trigger] events[k] is TextDelta || events[k] is ToolUse)
        }),
{
    lemma_content_events::<U>(content);
    let events = response_events(content, usage);
    assert forall|k: int| 0 <= k < events.len() - 2 implies (#[trigger] events[k] is TextDelta
        || events[k] is ToolUse) by {
        assert(events[k] == content_events::<U>(content)[k]);
    }
}

/// No event of an answer carries an empty text.
pub proof fn law_no_empty_text<U>(content: Seq<OutputContentBlockView>, usage: U)
    ensures
        forall|k: int|
            0 <= k < response_events(content, usage).len() ==> (#[trigger] response_events(
                content,
                usage,
            )[k] matches AssistantEventView::TextDelta(text) ==> text.len() > 0),
{
    lemma_content_events::<U>(content);
    let events = response_events(content, usage);
    assert forall|k: int| 0 <= k < events.len() implies (#[trigger] events[k] matches
        AssistantEventView::TextDelta(text) ==> text.len() > 0) by {
        if k < content_events::<U>(content).len() {
            assert(events[k] == content_events::<U>(content)[k]);
        }
    }
}

/// The parts of an answer become events one after the other, each by itself.
pub proof fn law_parts_become_events_in_order<U>(
    content: Seq<OutputContentBlockView>,
    more: Seq<OutputContentBlockView>,
)
    ensures
        content_events::<U>(content + more) == content_events::<U>(content) + content_events::<U>(
            more,
        ),
    decreases more.len(),
{
    if more.len() == 0 {
        assert(content + more == content);
    } else {
        assert((content + more).drop_last() == content + more.drop_last());
        assert((content + more).last() == more.last());
        law_parts_become_events_in_order::<U>(content, more.drop_last());
    }
}

/// Every tool call in an answer becomes an event, with the input that the answer gives it.
pub proof fn law_tool_calls_are_kept<U>(content: Seq<OutputContentBlockView>, usage: U, i: int)
    requires
        0 <= i < content.len(),
        content[i] is ToolUse,
    ensures
        response_events(content, usage).contains(
            AssistantEventView::ToolUse {
                id: content[i]->ToolUse_id,
                name: content[i]->ToolUse_name,
                input: content[i]->ToolUse_input,
            },
        ),
{
    let front = content.take(i);
    let rest = content.skip(i + 1);
    let one = seq![content[i]];
    assert(content == front + one + rest);
    law_parts_become_events_in_order::<U>(front + one, rest);
    law_parts_become_events_in_order::<U>(front, one);
    let at = content_events::<U>(front).len() as int;
    assert(one.drop_last() == Seq::<OutputContentBlockView>::empty());
    reveal_with_fuel(content_events, 2);
    assert(content_events::<U>(one) == block_events::<U>(content[i]));
    assert(response_events(content, usage)[at] == block_events::<U>(content[i])[0]);
}

proof fn lemma_content_events<U>(content: Seq<OutputContentBlockView>)
    ensures
        forall|k: int|
            0 <= k < content_events::<U>(content).len() ==> (match #[trigger] content_events::<U>(
                content,
            )[k] {
                AssistantEventView::TextDelta(text) => text.len() > 0,
                AssistantEventView::ToolUse { .. } => true,
                _ => false,
            }),
    decreases content.len(),
{
    if content.len() > 0 {
        lemma_content_events::<U>(content.drop_last());
    }
}

/// A text in an answer becomes one event that carries it, unless it is empty; a tool call
/// becomes one event that carries its identifier, its name and its input; thinking becomes
/// none. Together with [`law_parts_become_events_in_order`], this says what becomes of every
/// answer.
pub proof fn law_each_part_becomes_its_event<U>(block: OutputContentBlockView)
    ensures
        content_events::<U>(seq![block]) == block_events::<U>(block),
        block matches OutputContentBlockView::Text { text } ==> {
            let events = block_events::<U>(block);
            &&& text.len() == 0 ==> events.len() == 0
            &&& text.len() > 0 ==> events.len() == 1 && events[0]
                == AssistantEventView::<U>::TextDelta(text)
        },
        block matches OutputContentBlockView::ToolUse { id, name, input } ==> {
            let events = block_events::<U>(block);
            &&& events.len() == 1
            &&& events[0] is ToolUse
            &&& events[0]->ToolUse_id == id
            &&& events[0]->ToolUse_name == name
            &&& events[0]->ToolUse_input == input
        },
        block is Thinking || block is RedactedThinking ==> block_events::<U>(block).len() == 0,
{
    reveal_with_fuel(content_events, 2);
    assert(seq![block].drop_last() == Seq::<OutputContentBlockView>::empty());
    assert(content_events::<U>(seq![block]) =~= block_events::<U>(block));
}

/// What an answer comes to is what its parts come to, then its account of tokens, then the
/// end of the message, and nothing more.
pub proof fn law_answers_are_their_parts_and_an_end<U>(
    content: Seq<OutputContentBlockView>,
    usage: U,
)
    ensures
        response_events(content, usage) == content_events::<U>(content).push(
            AssistantEventView::Usage(usage),
        ).push(AssistantEventView::MessageStop),
{
    assert(response_events(content, usage) =~= content_events::<U>(content).push(
        AssistantEventView::Usage(usage),
    ).push(AssistantEventView::MessageStop));
}

/// The input of a tool call is waited for only where inputs are streamed and the one that
/// came is an empty object; else it is what came.
pub proof fn law_inputs_are_kept_unless_streamed(input: Seq<char>)
    ensures
        initial_input(input, false) == input,
        input == "{}"@ ==> initial_input(input, true).len() == 0,
        input != "{}"@ ==> initial_input(input, true) == input,
{
}

/// The parts of an answer and the events of a turn are taken for what they hold, field by
/// field.
pub proof fn law_events_are_what_they_hold<U>(
    block: OutputContentBlock,
    event: AssistantEvent<U>,
    content: Seq<OutputContentBlock>,
    events: Seq<AssistantEvent<U>>,
    pending: Map<u32, (String, String, String)>,
)
    ensures
        block is Thinking <==> block@ is Thinking,
        block is RedactedThinking <==> block@ is RedactedThinking,
        block is Text <==> block@ is Text,
        block matches OutputContentBlock::Text { text } ==> block@->Text_text == text@,
        block matches OutputContentBlock::ToolUse { id, name, input } ==> {
            &&& block@->ToolUse_id == id@
            &&& block@->ToolUse_name == name@
            &&& block@->ToolUse_input == json_text(input)
        },
        event is MessageStop <==> event@ is MessageStop,
        event is Usage <==> event@ is Usage,
        event is TextDelta <==> event@ is TextDelta,
        event matches AssistantEvent::TextDelta(text) ==> event@->TextDelta_0 == text@,
        event matches AssistantEvent::Usage(usage) ==> event@->Usage_0 == usage,
        event matches AssistantEvent::ToolUse { id, name, input } ==> {
            &&& event@->ToolUse_id == id@
            &&& event@->ToolUse_name == name@
            &&& event@->ToolUse_input == input@
        },
        block_views(content).len() == content.len(),
        forall|i: int| 0 <= i < content.len() ==> #[trigger] block_views(content)[i] == content[i]@,
        event_views(events).len() == events.len(),
        forall|i: int| 0 <= i < events.len() ==> #[trigger] event_views(events)[i] == events[i]@,
        pending_views(pending).dom() == pending.dom(),
        forall|k: u32|
            pending.contains_key(k) ==> #[trigger] pending_views(pending)[k] == (
                pending[k].0@,
                pending[k].1@,
                pending[k].2@,
            ),
{
    assert(pending_views(pending).dom() =~= pending.dom());
}

} // verus!
