//! What is written into a thread.

use vstd::prelude::*;

use crate::conversation::{
    message_views, ContentBlock, ContentBlockView, ConversationMessage, ConversationMessageView,
};
use crate::text::{
    chars_of, is_blank, is_white_space, join, joined, law_trimmed_is_empty_iff_blank, trim, trimmed,
    views,
};

verus! {

/// The number of characters that a message to Slack may have.
pub const MAX_SLACK_TEXT_LEN: usize = 3500;

/// The number of characters that are set aside for saying that a message was cut off.
pub const TRUNCATION_RESERVE: usize = 24;

/// A text as it may be sent to Slack: whole or, if it is too long, its beginning and a
/// note that says so.
pub open spec fn limited(text: Seq<char>) -> Seq<char> {
    if text.len() <= MAX_SLACK_TEXT_LEN {
        text
    } else {
        text.take(MAX_SLACK_TEXT_LEN - TRUNCATION_RESERVE) + "\n\n[truncated for Slack]"@
    }
}

/// The texts among the parts of a message, in order.
pub open spec fn block_texts(blocks: Seq<ContentBlockView>) -> Seq<Seq<char>>
    decreases blocks.len(),
{
    if blocks.len() == 0 {
        Seq::empty()
    } else {
        let front = block_texts(blocks.drop_last());
        match blocks.last() {
            ContentBlockView::Text { text } => front.push(text),
            _ => front,
        }
    }
}

/// The texts among the parts of all messages, in order.
pub open spec fn message_texts(messages: Seq<ConversationMessageView>) -> Seq<Seq<char>>
    decreases messages.len(),
{
    if messages.len() == 0 {
        Seq::empty()
    } else {
        message_texts(messages.drop_last()) + block_texts(messages.last().blocks)
    }
}

/// What the assistant said in a turn: its texts, one to a line, or a note that there
/// were none.
pub open spec fn assistant_reply(messages: Seq<ConversationMessageView>) -> Seq<char> {
    let text = joined(message_texts(messages), "\n"@);
    if trimmed(text).len() == 0 {
        "completed, but no assistant text was produced"@
    } else {
        text
    }
}

/// A text as it may be sent to Slack: whole or, if it is too long, its beginning and a
/// note that says so.
pub fn limit_for_slack(text: &str) -> (r: String)
    ensures
        r@ == limited(text@),
{
    let chars = chars_of(text);
    if chars.len() <= MAX_SLACK_TEXT_LEN {
        return text.to_string();
    }
    let keep: usize = MAX_SLACK_TEXT_LEN.saturating_sub(TRUNCATION_RESERVE);
    let mut out = String::new();
    for i in 0..keep
        invariant
            keep <= chars@.len(),
            out@ == chars@.take(i as int),
    {
        out.push(chars[i]);
        assert(chars@.take(i as int).push(chars@[i as int]) == chars@.take(i + 1));
    }
    out.concat("\n\n[truncated for Slack]")
}

/// What the assistant said in a turn: its texts, one to a line, or a note that there
/// were none.
pub fn render_assistant_reply(messages: &[ConversationMessage]) -> (r: String)
    ensures
        r@ == assistant_reply(message_views(messages@)),
{
    let ghost all = message_views(messages@);
    let mut texts: Vec<String> = Vec::new();
    for i in 0..messages.len()
        invariant
            all == message_views(messages@),
            views(texts@) == message_texts(all.take(i as int)),
    {
        let blocks = &messages[i].blocks;
        let ghost parts = all[i as int].blocks;
        let ghost head = views(texts@);
        for j in 0..blocks.len()
            invariant
                parts == blocks@.map_values(|block: ContentBlock| block@),
                views(texts@) == head + block_texts(parts.take(j as int)),
        {
            let ghost so_far = views(texts@);
            assert(parts.take(j + 1).drop_last() == parts.take(j as int));
            assert(parts.take(j + 1).last() == blocks@[j as int]@);
            if let ContentBlock::Text { text } = &blocks[j] {
                texts.push(text.clone());
                assert(views(texts@) == so_far.push(text@));
            }
            assert(views(texts@) == head + block_texts(parts.take(j + 1)));
        }
        assert(parts.take(parts.len() as int) == parts);
        assert(all.take(i + 1).drop_last() == all.take(i as int));
    }
    assert(all.take(all.len() as int) == all);
    let text = join(&texts, "\n");
    if trim(text.as_str()).as_str().is_empty() {
        "completed, but no assistant text was produced".to_string()
    } else {
        text
    }
}

/// No text that goes to Slack is longer than Slack takes it.
pub proof fn law_limited_text_fits(text: Seq<char>)
    ensures
        limited(text).len() <= MAX_SLACK_TEXT_LEN,
{
    reveal_strlit("\n\n[truncated for Slack]");
}

/// A text that was cut down to what Slack takes is left alone from then on.
pub proof fn law_limiting_is_stable(text: Seq<char>)
    ensures
        limited(limited(text)) == limited(text),
{
    law_limited_text_fits(text);
}

/// What is cut off is the end of a text: what remains is its beginning and the note.
pub proof fn law_limiting_keeps_the_beginning(text: Seq<char>)
    requires
        text.len() > MAX_SLACK_TEXT_LEN,
    ensures
        limited(text).take(MAX_SLACK_TEXT_LEN - TRUNCATION_RESERVE) == text.take(
            MAX_SLACK_TEXT_LEN - TRUNCATION_RESERVE,
        ),
        limited(text).skip(MAX_SLACK_TEXT_LEN - TRUNCATION_RESERVE)
            == "\n\n[truncated for Slack]"@,
{
}

/// The reply that a turn ends with is never blank, not even when it had to be cut.
pub proof fn law_reply_is_not_blank(messages: Seq<ConversationMessageView>)
    ensures
        !is_blank(assistant_reply(messages)),
        !is_blank(limited(assistant_reply(messages))),
{
    let reply = assistant_reply(messages);
    reveal_strlit("completed, but no assistant text was produced");
    reveal_strlit("\n\n[truncated for Slack]");
    law_trimmed_is_empty_iff_blank(joined(message_texts(messages), "\n"@));
    assert(!is_white_space("completed, but no assistant text was produced"@[0]));
    assert(!is_white_space("\n\n[truncated for Slack]"@[2]));
    if reply.len() > MAX_SLACK_TEXT_LEN {
        let at = MAX_SLACK_TEXT_LEN - TRUNCATION_RESERVE + 2;
        assert(limited(reply)[at] == "\n\n[truncated for Slack]"@[2]);
    }
}

/// A text of up to 3500 characters goes to Slack as it is. Of a longer one, the first 3476
/// characters are left, and the note that says so.
pub proof fn law_texts_are_cut_only_if_too_long(text: Seq<char>)
    ensures
        text.len() <= 3500 ==> limited(text) == text,
        text.len() > 3500 ==> {
            &&& limited(text).len() == 3499
            &&& forall|i: int| 0 <= i < 3476 ==> #[trigger] limited(text)[i] == text[i]
            &&& limited(text).skip(3476) == "\n\n[truncated for Slack]"@
        },
{
    reveal_strlit("\n\n[truncated for Slack]");
    if text.len() > 3500 {
        law_limiting_keeps_the_beginning(text);
        assert forall|i: int| 0 <= i < 3476 implies #[trigger] limited(text)[i] == text[i] by {
            assert(limited(text)[i] == limited(text).take(3476)[i]);
        }
    }
}

/// The texts of messages are those of their parts: a text gives itself, a tool call and a
/// tool result give none, and what comes later is put behind.
pub proof fn law_texts_of_messages(
    block: ContentBlockView,
    message: ConversationMessageView,
    blocks: Seq<ContentBlockView>,
    more_blocks: Seq<ContentBlockView>,
    messages: Seq<ConversationMessageView>,
    more: Seq<ConversationMessageView>,
)
    ensures
        block is Text ==> block_texts(seq![block]) == seq![block->Text_text],
        !(block is Text) ==> block_texts(seq![block]).len() == 0,
        block_texts(blocks + more_blocks) == block_texts(blocks) + block_texts(more_blocks),
        message_texts(seq![message]) == block_texts(message.blocks),
        message_texts(messages + more) == message_texts(messages) + message_texts(more),
{
    reveal_with_fuel(block_texts, 2);
    reveal_with_fuel(message_texts, 2);
    assert(seq![block].drop_last() == Seq::<ContentBlockView>::empty());
    assert(seq![message].drop_last() == Seq::<ConversationMessageView>::empty());
    assert(message_texts(seq![message]) =~= block_texts(message.blocks));
    lemma_block_texts_append(blocks, more_blocks);
    lemma_message_texts_append(messages, more);
}

proof fn lemma_block_texts_append(blocks: Seq<ContentBlockView>, more: Seq<ContentBlockView>)
    ensures
        block_texts(blocks + more) == block_texts(blocks) + block_texts(more),
    decreases more.len(),
{
    if more.len() == 0 {
        assert(blocks + more == blocks);
    } else {
        assert((blocks + more).drop_last() == blocks + more.drop_last());
        assert((blocks + more).last() == more.last());
        lemma_block_texts_append(blocks, more.drop_last());
    }
}

proof fn lemma_message_texts_append(
    messages: Seq<ConversationMessageView>,
    more: Seq<ConversationMessageView>,
)
    ensures
        message_texts(messages + more) == message_texts(messages) + message_texts(more),
    decreases more.len(),
{
    if more.len() == 0 {
        assert(messages + more == messages);
    } else {
        assert((messages + more).drop_last() == messages + more.drop_last());
        assert((messages + more).last() == more.last());
        lemma_message_texts_append(messages, more.drop_last());
    }
}

/// If anything but white space was said, the reply is all that was said, untrimmed, each
/// text on a line of its own; else it is the note that nothing was.
pub proof fn law_the_reply_is_what_was_said(messages: Seq<ConversationMessageView>)
    ensures
        ({
            let said = joined(message_texts(messages), seq!['\n']);
            if exists|i: int| 0 <= i < said.len() && !is_white_space(#[trigger] said[i]) {
                assistant_reply(messages) == said
            } else {
                assistant_reply(messages) == "completed, but no assistant text was produced"@
            }
        }),
{
    reveal_strlit("\n");
    assert("\n"@ =~= seq!['\n']);
    law_trimmed_is_empty_iff_blank(joined(message_texts(messages), seq!['\n']));
}

} // verus!
