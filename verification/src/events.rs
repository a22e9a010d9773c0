//! What Slack reports, and what is done about it.

use axum::http::HeaderMap;
use vstd::prelude::*;

use crate::config::{Config, ConfigView};
use crate::paths::{thread_files, thread_paths, ThreadPaths, ThreadPathsView};
use crate::prompt::{
    law_prompt_is_words_joined, law_prompt_keeps_all_words, law_prompt_without_mentions, prompt_of,
    sanitize_slack_prompt,
};
use crate::signature::{
    header_outcome, request_outcome, verify_slack_signature, SIGNATURE_HEADER, TIMESTAMP_HEADER,
};
use crate::text::{opt_view, outcome, runs, same};
use crate::thread::{ThreadContext, ThreadContextView};

verus! {

/// An event in a Slack workspace.
#[derive(Clone, Debug)]
pub struct SlackEvent {
    pub kind: String,
    pub text: Option<String>,
    pub user: Option<String>,
    pub bot_id: Option<String>,
    pub subtype: Option<String>,
    pub channel: Option<String>,
    pub thread_ts: Option<String>,
    pub ts: Option<String>,
}

/// What Slack sends.
#[derive(Debug)]
pub enum SlackEnvelope {
    UrlVerification { challenge: String },
    EventCallback { event: SlackEvent },
    Other,
}

/// How a request is answered.
#[derive(Debug)]
pub enum SlackReply {
    /// The request is not from Slack.
    Unauthorized { message: String },
    /// The request makes no sense.
    BadRequest { message: String },
    /// Slack asks whether the bridge is there.
    Challenge { challenge: String },
    /// An event was received and is to be processed.
    Accepted { event: SlackEvent },
    /// There is nothing to do.
    Ignored,
}

/// Where the thread of an event is.
#[derive(Clone, Debug)]
pub struct ThreadLocation {
    pub channel: String,
    pub thread_ts: String,
    pub paths: ThreadPaths,
}

/// What a [`SlackEvent`] holds.
pub struct SlackEventView {
    pub kind: Seq<char>,
    pub text: Option<Seq<char>>,
    pub user: Option<Seq<char>>,
    pub bot_id: Option<Seq<char>>,
    pub subtype: Option<Seq<char>>,
    pub channel: Option<Seq<char>>,
    pub thread_ts: Option<Seq<char>>,
    pub ts: Option<Seq<char>>,
}

/// What a [`SlackEnvelope`] holds.
pub enum SlackEnvelopeView {
    UrlVerification { challenge: Seq<char> },
    EventCallback { event: SlackEventView },
    Other,
}

/// What a [`SlackReply`] holds.
pub enum SlackReplyView {
    Unauthorized { message: Seq<char> },
    BadRequest { message: Seq<char> },
    Challenge { challenge: Seq<char> },
    Accepted { event: SlackEventView },
    Ignored,
}

/// What a [`ThreadLocation`] holds.
pub struct ThreadLocationView {
    pub channel: Seq<char>,
    pub thread_ts: Seq<char>,
    pub paths: ThreadPathsView,
}

impl View for SlackEvent {
    type V = SlackEventView;

    open spec fn view(&self) -> SlackEventView {
        SlackEventView {
            kind: self.kind@,
            text: opt_view(self.text),
            user: opt_view(self.user),
            bot_id: opt_view(self.bot_id),
            subtype: opt_view(self.subtype),
            channel: opt_view(self.channel),
            thread_ts: opt_view(self.thread_ts),
            ts: opt_view(self.ts),
        }
    }
}

impl View for SlackEnvelope {
    type V = SlackEnvelopeView;

    open spec fn view(&self) -> SlackEnvelopeView {
        match *self {
            SlackEnvelope::UrlVerification { challenge } => SlackEnvelopeView::UrlVerification {
                challenge: challenge@,
            },
            SlackEnvelope::EventCallback { event } => SlackEnvelopeView::EventCallback {
                event: event@,
            },
            SlackEnvelope::Other => SlackEnvelopeView::Other,
        }
    }
}

impl View for SlackReply {
    type V = SlackReplyView;

    open spec fn view(&self) -> SlackReplyView {
        match *self {
            SlackReply::Unauthorized { message } => SlackReplyView::Unauthorized {
                message: message@,
            },
            SlackReply::BadRequest { message } => SlackReplyView::BadRequest { message: message@ },
            SlackReply::Challenge { challenge } => SlackReplyView::Challenge {
                challenge: challenge@,
            },
            SlackReply::Accepted { event } => SlackReplyView::Accepted { event: event@ },
            SlackReply::Ignored => SlackReplyView::Ignored,
        }
    }
}

impl View for ThreadLocation {
    type V = ThreadLocationView;

    open spec fn view(&self) -> ThreadLocationView {
        ThreadLocationView {
            channel: self.channel@,
            thread_ts: self.thread_ts@,
            paths: self.paths@,
        }
    }
}

/// What a parsed payload holds.
pub open spec fn envelope_outcome(envelope: Result<SlackEnvelope, String>) -> Result<
    SlackEnvelopeView,
    Seq<char>,
> {
    match envelope {
        Ok(envelope) => Ok(envelope@),
        Err(message) => Err(message@),
    }
}

/// What an optional location holds.
pub open spec fn location_view(location: Option<ThreadLocation>) -> Option<ThreadLocationView> {
    match location {
        Some(location) => Some(location@),
        None => None,
    }
}

/// What an optional context holds.
pub open spec fn context_view(context: Option<ThreadContext>) -> Option<ThreadContextView> {
    match context {
        Some(context) => Some(context@),
        None => None,
    }
}

/// The HTTP status that a reply goes out with.
pub open spec fn reply_status(reply: SlackReplyView) -> int {
    match reply {
        SlackReplyView::Unauthorized { .. } => 401,
        SlackReplyView::BadRequest { .. } => 400,
        _ => 200,
    }
}

/// How a request from Slack is answered.
pub open spec fn envelope_reply(envelope: Result<SlackEnvelopeView, Seq<char>>) -> SlackReplyView {
    match envelope {
        Err(message) => SlackReplyView::BadRequest {
            message: "invalid Slack payload: "@ + message,
        },
        Ok(SlackEnvelopeView::UrlVerification { challenge }) => SlackReplyView::Challenge {
            challenge,
        },
        Ok(SlackEnvelopeView::EventCallback { event }) => SlackReplyView::Accepted { event },
        Ok(SlackEnvelopeView::Other) => SlackReplyView::Ignored,
    }
}

/// How a request is answered: as one that is not from Slack unless its signature was found
/// right, else by what it carries.
pub open spec fn request_reply(
    checked: Result<(), Seq<char>>,
    envelope: Result<SlackEnvelopeView, Seq<char>>,
) -> SlackReplyView {
    match checked {
        Err(message) => SlackReplyView::Unauthorized { message },
        Ok(_) => envelope_reply(envelope),
    }
}

/// Whether an event was caused by a bot.
pub open spec fn is_from_bot(event: SlackEventView) -> bool {
    event.bot_id is Some || event.subtype == Some("bot_message"@)
}

/// Whether the bridge answers in a channel. It answers in all unless they are listed.
pub open spec fn channel_allowed(config: ConfigView, channel: Seq<char>) -> bool {
    config.allowed_channels is Some ==> config.allowed_channels->0.contains(channel)
}

/// The thread that an event belongs to, if it is one that the bridge listens to.
pub open spec fn event_location(config: ConfigView, event: SlackEventView) -> Option<
    ThreadLocationView,
> {
    match (event.channel, event.ts) {
        (Some(channel), Some(ts)) => if is_from_bot(event) || !channel_allowed(config, channel)
            || ts.len() == 0 {
            None
        } else {
            let thread_ts = match event.thread_ts {
                Some(thread_ts) => thread_ts,
                None => ts,
            };
            Some(
                ThreadLocationView {
                    channel,
                    thread_ts,
                    paths: thread_files(config.state_dir, channel, thread_ts),
                },
            )
        },
        _ => None,
    }
}

/// Whether an event of some kind is meant for the bridge: a mention always is, another
/// message only in a conversation that the bridge is part of.
pub open spec fn is_addressed(kind: Seq<char>, conversation_exists: bool) -> bool {
    kind == "app_mention"@ || (kind == "message"@ && conversation_exists)
}

/// The prompt in an event. Only the mention that calls the bridge is taken out of it.
pub open spec fn event_prompt(event: SlackEventView) -> Seq<char> {
    let text = match event.text {
        Some(text) => text,
        None => Seq::empty(),
    };
    prompt_of(text, event.kind == "app_mention"@)
}

/// The prompt that an event puts to the bridge, if it puts one.
pub open spec fn event_context(
    config: ConfigView,
    event: SlackEventView,
    conversation_exists: bool,
) -> Option<ThreadContextView> {
    match event_location(config, event) {
        Some(location) => {
            let prompt = event_prompt(event);
            if is_addressed(event.kind, conversation_exists) && prompt.len() > 0 {
                Some(
                    ThreadContextView {
                        channel: location.channel,
                        thread_ts: location.thread_ts,
                        prompt,
                        paths: location.paths,
                    },
                )
            } else {
                None
            }
        },
        None => None,
    }
}

/// Lets a request in if it is from Slack; else says how it is answered.
pub fn authorize(signing_secret: &str, headers: &HeaderMap, body: &str) -> (r: Result<
    (),
    SlackReply,
>)
    ensures
        match request_outcome(
            signing_secret@,
            header_outcome(*headers, TIMESTAMP_HEADER@),
            header_outcome(*headers, SIGNATURE_HEADER@),
            body@,
        ) {
            Ok(_) => r is Ok,
            Err(message) => r is Err && r->Err_0@ == (SlackReplyView::Unauthorized { message }),
        },
{
    match verify_slack_signature(signing_secret, headers, body) {
        Ok(_) => Ok(()),
        Err(message) => Err(SlackReply::Unauthorized { message }),
    }
}

/// How a request from Slack is answered, given what its body was parsed to.
pub fn slack_events(envelope: Result<SlackEnvelope, String>) -> (r: SlackReply)
    ensures
        r@ == envelope_reply(envelope_outcome(envelope)),
{
    match envelope {
        Err(message) => SlackReply::BadRequest {
            message: "invalid Slack payload: ".to_string().concat(message.as_str()),
        },
        Ok(SlackEnvelope::UrlVerification { challenge }) => SlackReply::Challenge { challenge },
        Ok(SlackEnvelope::EventCallback { event }) => SlackReply::Accepted { event },
        Ok(SlackEnvelope::Other) => SlackReply::Ignored,
    }
}

/// How a request is answered, given what its body was parsed to. What it carries counts
/// only if its signature is right.
pub fn answer_request(
    signing_secret: &str,
    headers: &HeaderMap,
    body: &str,
    envelope: Result<SlackEnvelope, String>,
) -> (r: SlackReply)
    ensures
        r@ == request_reply(
            request_outcome(
                signing_secret@,
                header_outcome(*headers, TIMESTAMP_HEADER@),
                header_outcome(*headers, SIGNATURE_HEADER@),
                body@,
            ),
            envelope_outcome(envelope),
        ),
{
    match authorize(signing_secret, headers, body) {
        Ok(_) => slack_events(envelope),
        Err(reply) => reply,
    }
}

impl SlackReply {
    /// The HTTP status that the reply goes out with.
    pub fn status(&self) -> (r: u16)
        ensures
            r == reply_status(self@),
    {
        match self {
            SlackReply::Unauthorized { .. } => 401,
            SlackReply::BadRequest { .. } => 400,
            SlackReply::Challenge { .. } | SlackReply::Accepted { .. } | SlackReply::Ignored => 200,
        }
    }
}

/// Whether an event was caused by a bot.
fn from_bot(event: &SlackEvent) -> (r: bool)
    ensures
        r == is_from_bot(event@),
{
    if event.bot_id.is_some() {
        return true;
    }
    match &event.subtype {
        Some(subtype) => same(subtype.as_str(), "bot_message"),
        None => false,
    }
}

/// The thread that an event belongs to, if it is one that the bridge listens to.
pub fn locate_thread(config: &Config, event: &SlackEvent) -> (r: Option<ThreadLocation>)
    ensures
        location_view(r) == event_location(config@, event@),
{
    if from_bot(event) {
        return None;
    }
    let channel = match &event.channel {
        Some(channel) => channel,
        None => return None,
    };
    if let Some(allowed) = &config.allowed_channels {
        if !allowed.contains(channel.as_str()) {
            return None;
        }
    }
    let ts = match &event.ts {
        Some(ts) => ts,
        None => return None,
    };
    if ts.as_str().is_empty() {
        return None;
    }
    let thread_ts = match &event.thread_ts {
        Some(thread_ts) => thread_ts,
        None => ts,
    };
    let paths = thread_paths(config.state_dir.as_str(), channel.as_str(), thread_ts.as_str());
    Some(ThreadLocation { channel: channel.clone(), thread_ts: thread_ts.clone(), paths })
}

/// The prompt that an event puts to the bridge, if it puts one. Whether there is a
/// conversation in its thread shows in the files that [`locate_thread`] names.
pub fn process_event(config: &Config, event: &SlackEvent, conversation_exists: bool) -> (r: Option<
    ThreadContext,
>)
    ensures
        context_view(r) == event_context(config@, event@, conversation_exists),
{
    let location = match locate_thread(config, event) {
        Some(location) => location,
        None => return None,
    };
    let is_app_mention = same(event.kind.as_str(), "app_mention");
    if !is_app_mention && !(same(event.kind.as_str(), "message") && conversation_exists) {
        return None;
    }
    let prompt = match &event.text {
        Some(text) => sanitize_slack_prompt(text.as_str(), is_app_mention),
        None => sanitize_slack_prompt(String::new().as_str(), is_app_mention),
    };
    if prompt.as_str().is_empty() {
        return None;
    }
    Some(
        ThreadContext {
            channel: location.channel,
            thread_ts: location.thread_ts,
            prompt,
            paths: location.paths,
        },
    )
}

/// No event is processed and no challenge is answered unless the signature of the request
/// was found right: any other request goes out as one that is not from Slack, whatever it
/// carries.
pub proof fn law_unsigned_requests_reach_nothing(
    checked: Result<(), Seq<char>>,
    envelope: Result<SlackEnvelopeView, Seq<char>>,
)
    ensures
        checked is Err <==> request_reply(checked, envelope) is Unauthorized,
        checked is Err <==> reply_status(request_reply(checked, envelope)) == 401,
{
}

/// A request from Slack is never answered as if it were not from Slack. It is answered
/// with success if and only if its payload makes sense.
pub proof fn law_requests_from_slack_are_not_refused(envelope: Result<SlackEnvelopeView, Seq<char>>)
    ensures
        !(envelope_reply(envelope) is Unauthorized),
        reply_status(envelope_reply(envelope)) == (if envelope is Ok { 200int } else { 400int }),
{
}

/// What a bot writes is never answered, in a conversation or not.
pub proof fn law_bots_are_ignored(
    config: ConfigView,
    event: SlackEventView,
    conversation_exists: bool,
)
    requires
        is_from_bot(event),
    ensures
        event_context(config, event, conversation_exists) is None,
{
}

/// Where the channels are listed, nothing in another channel is answered.
pub proof fn law_other_channels_are_ignored(
    config: ConfigView,
    event: SlackEventView,
    conversation_exists: bool,
)
    requires
        config.allowed_channels is Some,
        event.channel is Some ==> !config.allowed_channels->0.contains(event.channel->0),
    ensures
        event_context(config, event, conversation_exists) is None,
{
}

/// The first turn in a thread takes a mention.
pub proof fn law_first_turn_takes_a_mention(config: ConfigView, event: SlackEventView)
    requires
        event.kind != "app_mention"@,
    ensures
        event_context(config, event, false) is None,
{
}

/// In a thread that the bridge listens to, a mention with a prompt is always answered,
/// and a message with a prompt is answered once there is a conversation.
pub proof fn law_prompts_are_answered(
    config: ConfigView,
    event: SlackEventView,
    conversation_exists: bool,
)
    requires
        event_location(config, event) is Some,
        event_prompt(event).len() > 0,
    ensures
        event.kind == "app_mention"@ ==> event_context(config, event, conversation_exists) is Some,
        event.kind == "message"@ ==> event_context(config, event, true) is Some,
{
}

/// A prompt comes from the text of its event, is not empty, and its files are those of
/// the thread that it stands in.
pub proof fn law_prompt_belongs_to_its_thread(
    config: ConfigView,
    event: SlackEventView,
    conversation_exists: bool,
)
    ensures
        event_context(config, event, conversation_exists) matches Some(context) ==> {
            &&& event.channel == Some(context.channel)
            &&& context.prompt == event_prompt(event)
            &&& context.prompt.len() > 0
            &&& context.paths == thread_files(
                config.state_dir,
                context.channel,
                context.thread_ts,
            )
        },
{
}

/// A message that starts a thread and the replies in that thread belong to the same
/// conversation: they are put to the same files.
pub proof fn law_replies_continue_the_conversation(
    config: ConfigView,
    first: SlackEventView,
    reply: SlackEventView,
)
    requires
        first.thread_ts is None,
        first.ts is Some,
        reply.thread_ts == first.ts,
        reply.channel == first.channel,
        event_location(config, first) is Some,
        event_location(config, reply) is Some,
    ensures
        event_location(config, reply) == event_location(config, first),
{
}

/// An event belongs to a thread that the bridge listens to if and only if no bot caused it,
/// it names a channel, which is listed if channels are, and it has a time. The thread is the
/// one that the event names or, where it names none, the one that it starts.
pub proof fn law_where_an_event_belongs(config: ConfigView, event: SlackEventView)
    ensures
        event_location(config, event) is Some <==> {
            &&& event.bot_id is None
            &&& event.subtype is Some ==> event.subtype->0 != "bot_message"@
            &&& event.channel is Some
            &&& config.allowed_channels is Some ==> config.allowed_channels->0.contains(
                event.channel->0,
            )
            &&& event.ts is Some
            &&& event.ts->0.len() > 0
        },
        event_location(config, event) matches Some(location) ==> {
            &&& location.channel == event.channel->0
            &&& event.thread_ts is Some ==> location.thread_ts == event.thread_ts->0
            &&& event.thread_ts is None ==> location.thread_ts == event.ts->0
            &&& location.paths == thread_files(
                config.state_dir,
                location.channel,
                location.thread_ts,
            )
        },
{
}

/// An event is answered if and only if it belongs to a thread that the bridge listens to,
/// it is a mention of the app, or a message in a conversation that there is, and its text
/// has a prompt: of a mention, what is left without the mentions; of a message, all of it.
/// What is put to the bridge is that prompt, in the thread of the event.
pub proof fn law_which_events_are_answered(
    config: ConfigView,
    event: SlackEventView,
    conversation_exists: bool,
)
    ensures
        event_context(config, event, conversation_exists) is Some <==> {
            &&& event_location(config, event) is Some
            &&& event.text is Some
            &&& {
                ||| event.kind == "app_mention"@ && prompt_of(event.text->0, true).len() > 0
                ||| event.kind == "message"@ && conversation_exists && prompt_of(
                    event.text->0,
                    false,
                ).len() > 0
            }
        },
        event_context(config, event, conversation_exists) matches Some(context) ==> {
            let location = event_location(config, event)->0;
            &&& context.channel == location.channel
            &&& context.thread_ts == location.thread_ts
            &&& context.paths == location.paths
            &&& event.kind == "app_mention"@ ==> context.prompt == prompt_of(event.text->0, true)
            &&& event.kind != "app_mention"@ ==> context.prompt == prompt_of(event.text->0, false)
        },
{
    reveal_strlit("app_mention");
    reveal_strlit("message");
    assert("app_mention"@[0] == 'a' && "message"@[0] == 'm');
    lemma_no_text_no_prompt(true);
    lemma_no_text_no_prompt(false);
}

/// There is no prompt in an empty text.
proof fn lemma_no_text_no_prompt(remove_mentions: bool)
    ensures
        prompt_of(Seq::empty(), remove_mentions).len() == 0,
{
    reveal(Seq::filter);
    law_prompt_is_words_joined(Seq::empty(), remove_mentions);
}

/// The prompt of an answered mention has no word that mentions someone, wherever the
/// mention stands, and all other words of the text; the prompt of any other answered event
/// has all words of the text.
pub proof fn law_mentions_are_taken_out_of_mentions_only(
    config: ConfigView,
    event: SlackEventView,
    conversation_exists: bool,
)
    ensures
        event_context(config, event, conversation_exists) matches Some(context) ==> {
            let words = runs(context.prompt, false);
            let given = runs(event.text->0, false);
            &&& event.kind == "app_mention"@ ==> {
                &&& forall|k: int|
                    0 <= k < words.len() ==> {
                        let word = #[trigger] words[k];
                        word.len() < 2 || word[0] != '<' || word[1] != '@' || word[word.len() - 1]
                            != '>'
                    }
                &&& words == given.filter(
                    |word: Seq<char>|
                        !(word.len() >= 2 && word[0] == '<' && word[1] == '@' && word[word.len()
                            - 1] == '>'),
                )
            }
            &&& event.kind != "app_mention"@ ==> words == given
        },
{
    law_which_events_are_answered(config, event, conversation_exists);
    if let Some(context) = event_context(config, event, conversation_exists) {
        let text = event.text->0;
        if event.kind == "app_mention"@ {
            law_prompt_without_mentions(text);
        } else {
            law_prompt_keeps_all_words(text);
        }
    }
}

/// A request whose payload makes no sense is told why, a challenge is given back as it came,
/// an event is taken in as it came, and all else is passed over.
pub proof fn law_requests_are_answered_by_what_they_carry(
    message: Seq<char>,
    challenge: Seq<char>,
    event: SlackEventView,
)
    ensures
        envelope_reply(Err(message)) is BadRequest,
        envelope_reply(Err(message))->BadRequest_message == "invalid Slack payload: "@ + message,
        envelope_reply(Ok(SlackEnvelopeView::UrlVerification { challenge })) is Challenge,
        envelope_reply(Ok(SlackEnvelopeView::UrlVerification { challenge }))->challenge
            == challenge,
        envelope_reply(Ok(SlackEnvelopeView::EventCallback { event })) is Accepted,
        envelope_reply(Ok(SlackEnvelopeView::EventCallback { event }))->event == event,
        envelope_reply(Ok(SlackEnvelopeView::Other)) is Ignored,
{
}

/// A request that was found right is answered by what it carries, any other with what was
/// found wrong.
pub proof fn law_what_a_request_carries_counts_if_it_is_right(
    message: Seq<char>,
    envelope: Result<SlackEnvelopeView, Seq<char>>,
)
    ensures
        request_reply(Ok(()), envelope) == envelope_reply(envelope),
        request_reply(Err(message), envelope) is Unauthorized,
        request_reply(Err(message), envelope)->Unauthorized_message == message,
{
}

/// A request that is refused goes out with 401, one that makes no sense with 400, and any
/// other with 200.
pub proof fn law_statuses(reply: SlackReplyView)
    ensures
        reply_status(reply) == 401 <==> reply is Unauthorized,
        reply_status(reply) == 400 <==> reply is BadRequest,
        reply_status(reply) == 200 <==> reply is Challenge || reply is Accepted || reply is Ignored,
{
}

/// Events and the places of their threads are taken for what they hold, field by field.
pub proof fn law_events_are_what_they_hold(
    event: SlackEvent,
    location: ThreadLocation,
    found: Option<ThreadLocation>,
    context: Option<ThreadContext>,
)
    ensures
        event@.kind == event.kind@,
        event@.text == opt_view(event.text),
        event@.user == opt_view(event.user),
        event@.bot_id == opt_view(event.bot_id),
        event@.subtype == opt_view(event.subtype),
        event@.channel == opt_view(event.channel),
        event@.thread_ts == opt_view(event.thread_ts),
        event@.ts == opt_view(event.ts),
        location@.channel == location.channel@,
        location@.thread_ts == location.thread_ts@,
        location@.paths == location.paths@,
        location_view(found) is Some <==> found is Some,
        found is Some ==> location_view(found)->0 == found->0@,
        context_view(context) is Some <==> context is Some,
        context is Some ==> context_view(context)->0 == context->0@,
{
}

/// Payloads and replies are taken for what they hold, field by field.
pub proof fn law_replies_are_what_they_hold(
    envelope: SlackEnvelope,
    parsed: Result<SlackEnvelope, String>,
    reply: SlackReply,
)
    ensures
        envelope is Other <==> envelope@ is Other,
        envelope is UrlVerification <==> envelope@ is UrlVerification,
        envelope matches SlackEnvelope::UrlVerification { challenge } ==> envelope@->challenge
            == challenge@,
        envelope matches SlackEnvelope::EventCallback { event } ==> envelope@->event == event@,
        envelope_outcome(parsed) is Ok <==> parsed is Ok,
        parsed is Ok ==> envelope_outcome(parsed)->Ok_0 == parsed->Ok_0@,
        parsed is Err ==> envelope_outcome(parsed)->Err_0 == parsed->Err_0@,
        reply is Ignored <==> reply@ is Ignored,
        reply is Accepted <==> reply@ is Accepted,
        reply is Challenge <==> reply@ is Challenge,
        reply is BadRequest <==> reply@ is BadRequest,
        reply matches SlackReply::Unauthorized { message } ==> reply@->Unauthorized_message
            == message@,
        reply matches SlackReply::BadRequest { message } ==> reply@->BadRequest_message == message@,
        reply matches SlackReply::Challenge { challenge } ==> reply@->challenge == challenge@,
        reply matches SlackReply::Accepted { event } ==> reply@->event == event@,
{
}

} // verus!
