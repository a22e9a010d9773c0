//! Posting to a thread, and what Slack says to it.

use serde_json::Value;
use vstd::prelude::*;

use crate::json::{bool_member, json_bool_member, json_text, print_json};
use crate::reply::{
    law_limited_text_fits, law_limiting_is_stable, law_texts_are_cut_only_if_too_long,
    limit_for_slack, limited, MAX_SLACK_TEXT_LEN,
};
use crate::text::outcome;

verus! {

/// A message to a thread.
#[derive(Debug)]
pub struct PostMessage {
    pub channel: String,
    pub thread_ts: String,
    pub text: String,
    pub unfurl_links: bool,
    pub unfurl_media: bool,
}

/// What a [`PostMessage`] holds.
pub struct PostMessageView {
    pub channel: Seq<char>,
    pub thread_ts: Seq<char>,
    pub text: Seq<char>,
    pub unfurl_links: bool,
    pub unfurl_media: bool,
}

impl View for PostMessage {
    type V = PostMessageView;

    open spec fn view(&self) -> PostMessageView {
        PostMessageView {
            channel: self.channel@,
            thread_ts: self.thread_ts@,
            text: self.text@,
            unfurl_links: self.unfurl_links,
            unfurl_media: self.unfurl_media,
        }
    }
}

/// A text as a message to a thread: no longer than Slack takes it, and with nothing
/// unfurled.
pub open spec fn posted(
    channel: Seq<char>,
    thread_ts: Seq<char>,
    text: Seq<char>,
) -> PostMessageView {
    PostMessageView {
        channel,
        thread_ts,
        text: limited(text),
        unfurl_links: false,
        unfurl_media: false,
    }
}

/// Whether Slack took a message: the HTTP status says success, and so does the answer.
pub open spec fn took_message(status: int, ok: Option<bool>) -> bool {
    200 <= status < 300 && ok == Some(true)
}

/// What Slack's answer to a message comes to.
pub open spec fn post_result(status: int, answer: Value) -> Result<(), Seq<char>> {
    if took_message(status, json_bool_member(answer, "ok"@)) {
        Ok(())
    } else {
        Err("Slack post failed: "@ + json_text(answer))
    }
}

/// A text as a message to a thread.
pub fn post_message(channel: &str, thread_ts: &str, text: &str) -> (r: PostMessage)
    ensures
        r@ == posted(channel@, thread_ts@, text@),
{
    PostMessage {
        channel: channel.to_string(),
        thread_ts: thread_ts.to_string(),
        text: limit_for_slack(text),
        unfurl_links: false,
        unfurl_media: false,
    }
}

/// Whether Slack took a message, given the HTTP status and what the answer has under `ok`.
pub fn is_posted(status: u16, ok: Option<bool>) -> (r: bool)
    ensures
        r == took_message(status as int, ok),
{
    match ok {
        Some(ok) => ok && 200 <= status && status < 300,
        None => false,
    }
}

/// What Slack's answer to a message comes to.
pub fn post_outcome(status: u16, answer: &Value) -> (r: Result<(), String>)
    ensures
        outcome(r) == post_result(status as int, *answer),
{
    if is_posted(status, bool_member(answer, "ok")) {
        Ok(())
    } else {
        Err("Slack post failed: ".to_string().concat(print_json(answer).as_str()))
    }
}

/// A message to a thread is never longer than Slack takes it, and a reply that was cut
/// down already is posted as it is.
pub proof fn law_posted_text_fits(channel: Seq<char>, thread_ts: Seq<char>, text: Seq<char>)
    ensures
        posted(channel, thread_ts, text).text.len() <= MAX_SLACK_TEXT_LEN,
        posted(channel, thread_ts, limited(text)).text == limited(text),
{
    law_limited_text_fits(text);
    law_limiting_is_stable(text);
}

/// A message goes to the channel and the thread that it is for, with nothing unfurled, and
/// carries the text whole if it has no more than 3500 characters; else it carries the
/// beginning of the text and a note.
pub proof fn law_messages_go_where_they_are_to(
    channel: Seq<char>,
    thread_ts: Seq<char>,
    text: Seq<char>,
)
    ensures
        ({
            let message = posted(channel, thread_ts, text);
            &&& message.channel == channel
            &&& message.thread_ts == thread_ts
            &&& text.len() <= 3500 ==> message.text == text
            &&& text.len() > 3500 ==> message.text == text.take(3476)
                + "\n\n[truncated for Slack]"@
            &&& !message.unfurl_links
            &&& !message.unfurl_media
        }),
{
    law_texts_are_cut_only_if_too_long(text);
    if text.len() > 3500 {
        let sent = posted(channel, thread_ts, text).text;
        assert(sent =~= sent.take(3476) + sent.skip(3476));
        assert(sent.take(3476) =~= text.take(3476));
    }
}

/// A message counts as posted if and only if the HTTP status is one of success and the
/// answer has `true` under `ok`; else the answer is reported.
pub proof fn law_when_a_message_counts_as_posted(status: int, ok: Option<bool>, answer: Value)
    ensures
        took_message(status, ok) <==> status / 100 == 2 && ok is Some && ok->0,
        post_result(status, answer) is Ok <==> status / 100 == 2 && json_bool_member(
            answer,
            "ok"@,
        ) == Some(true),
        post_result(status, answer) is Err ==> post_result(status, answer)->Err_0
            == "Slack post failed: "@ + json_text(answer),
{
}

/// The fields of a message are taken for their characters.
pub proof fn law_messages_are_their_characters(message: PostMessage)
    ensures
        message@.channel == message.channel@,
        message@.thread_ts == message.thread_ts@,
        message@.text == message.text@,
        message@.unfurl_links == message.unfurl_links,
        message@.unfurl_media == message.unfurl_media,
{
}

} // verus!
