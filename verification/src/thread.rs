//! The state of a thread, and what a prompt in it leads to.

use vstd::prelude::*;

use crate::clock::{is_clock_time, now_millis};
use crate::config::{mode_name, Config, ConfigView};
use crate::conversation::{message_views, ConversationMessage};
use crate::paths::{ThreadPaths, ThreadPathsView};
use crate::prompt::{law_prompt_is_trimmed, prompt_of};
use crate::reply::{assistant_reply, limit_for_slack, limited, render_assistant_reply};
use crate::text::{
    is_blank, is_white_space, law_trimmed_is_empty_iff_blank, same, strip_prefix, trim, trimmed,
};

verus! {

/// What is kept of a thread besides its session.
#[derive(Debug)]
pub struct ThreadState {
    pub model: String,
    pub turn_count: u64,
    pub created_at_ms: i64,
    pub updated_at_ms: i64,
}

/// A prompt, and the thread it stands in.
#[derive(Clone, Debug)]
pub struct ThreadContext {
    pub channel: String,
    pub thread_ts: String,
    pub prompt: String,
    pub paths: ThreadPaths,
}

/// What is to be done about a prompt.
#[derive(Debug)]
pub enum ThreadAction {
    /// Post the text.
    Post { text: String },
    /// Save the state, then post the text.
    SaveAndPost { state: ThreadState, text: String },
    /// Remove the session if there is one, save the state, then post the text.
    ResetAndPost { state: ThreadState, text: String },
    /// Run a turn of the conversation, save the state, then post the reply.
    RunTurn { state: ThreadState },
}

/// What a [`ThreadState`] holds.
pub struct ThreadStateView {
    pub model: Seq<char>,
    pub turn_count: u64,
    pub created_at_ms: i64,
    pub updated_at_ms: i64,
}

/// What a [`ThreadContext`] holds.
pub struct ThreadContextView {
    pub channel: Seq<char>,
    pub thread_ts: Seq<char>,
    pub prompt: Seq<char>,
    pub paths: ThreadPathsView,
}

/// What a [`ThreadAction`] holds.
pub enum ThreadActionView {
    Post { text: Seq<char> },
    SaveAndPost { state: ThreadStateView, text: Seq<char> },
    ResetAndPost { state: ThreadStateView, text: Seq<char> },
    RunTurn { state: ThreadStateView },
}

impl View for ThreadState {
    type V = ThreadStateView;

    open spec fn view(&self) -> ThreadStateView {
        ThreadStateView {
            model: self.model@,
            turn_count: self.turn_count,
            created_at_ms: self.created_at_ms,
            updated_at_ms: self.updated_at_ms,
        }
    }
}

impl View for ThreadContext {
    type V = ThreadContextView;

    open spec fn view(&self) -> ThreadContextView {
        ThreadContextView {
            channel: self.channel@,
            thread_ts: self.thread_ts@,
            prompt: self.prompt@,
            paths: self.paths@,
        }
    }
}

impl View for ThreadAction {
    type V = ThreadActionView;

    open spec fn view(&self) -> ThreadActionView {
        match *self {
            ThreadAction::Post { text } => ThreadActionView::Post { text: text@ },
            ThreadAction::SaveAndPost { state, text } => ThreadActionView::SaveAndPost {
                state: state@,
                text: text@,
            },
            ThreadAction::ResetAndPost { state, text } => ThreadActionView::ResetAndPost {
                state: state@,
                text: text@,
            },
            ThreadAction::RunTurn { state } => ThreadActionView::RunTurn { state: state@ },
        }
    }
}

/// The state that a thread starts from.
pub open spec fn fresh_state(default_model: Seq<char>, now: i64) -> ThreadStateView {
    ThreadStateView {
        model: default_model,
        turn_count: 0,
        created_at_ms: now,
        updated_at_ms: now,
    }
}

/// A state that was changed at a point in time.
pub open spec fn touched(state: ThreadStateView, now: i64) -> ThreadStateView {
    ThreadStateView { updated_at_ms: now, ..state }
}

/// A state after one more turn.
pub open spec fn after_turn(state: ThreadStateView, now: i64) -> ThreadStateView {
    ThreadStateView { turn_count: (state.turn_count + 1) as u64, updated_at_ms: now, ..state }
}

/// What a thread is told about itself.
pub open spec fn status_text(
    config: ConfigView,
    context: ThreadContextView,
    state: ThreadStateView,
) -> Seq<char> {
    "model: `"@ + state.model + "`\npermission: `"@ + mode_name(config.permission_mode)
        + "`\nsession: `"@ + context.paths.session + "`"@
}

/// What is to be done about a prompt, at a point in time.
pub open spec fn action_for(
    config: ConfigView,
    context: ThreadContextView,
    state: ThreadStateView,
    now: i64,
) -> ThreadActionView {
    let prompt = context.prompt;
    if "/model "@.is_prefix_of(prompt) {
        let model = trimmed(prompt.skip("/model "@.len() as int));
        if model.len() == 0 {
            ThreadActionView::Post { text: "usage: /model <model-name>"@ }
        } else {
            ThreadActionView::SaveAndPost {
                state: touched(ThreadStateView { model, ..state }, now),
                text: "model switched to `"@ + model + "`"@,
            }
        }
    } else if prompt == "/reset"@ {
        ThreadActionView::ResetAndPost {
            state: fresh_state(config.default_model, now),
            text: "thread session reset"@,
        }
    } else if prompt == "/status"@ {
        ThreadActionView::Post { text: status_text(config, context, state) }
    } else if prompt == "/help"@ {
        ThreadActionView::Post { text: "commands: `/model <name>`, `/status`, `/reset`"@ }
    } else {
        ThreadActionView::RunTurn { state }
    }
}

impl ThreadState {
    /// The state that a thread starts from, at a point in time.
    pub fn starting_at(default_model: &str, now: i64) -> (r: Self)
        ensures
            r@ == fresh_state(default_model@, now),
    {
        ThreadState {
            model: default_model.to_string(),
            turn_count: 0,
            created_at_ms: now,
            updated_at_ms: now,
        }
    }

    /// The state that a thread starts from now.
    pub fn new(default_model: &str) -> (r: Self)
        ensures
            r@ == fresh_state(default_model@, r.created_at_ms),
            is_clock_time(r.created_at_ms),
    {
        let now: i64 = now_millis();
        ThreadState::starting_at(default_model, now)
    }

    /// Takes down that the state was changed at a point in time.
    pub fn touch_at(&mut self, now: i64)
        ensures
            final(self)@ == touched(old(self)@, now),
    {
        self.updated_at_ms = now;
    }

    /// Takes down that the state was changed now: whatever the time of change was before,
    /// it is a time of the clock after.
    pub fn touch(&mut self)
        ensures
            final(self)@ == touched(old(self)@, final(self).updated_at_ms),
            is_clock_time(final(self).updated_at_ms),
    {
        let now: i64 = now_millis();
        self.touch_at(now);
    }
}

/// The state of a thread: what was stored, or why it could not be read, or, where nothing
/// was stored, the state that a thread starts from now.
pub fn load_thread_state(
    stored: Option<Result<ThreadState, String>>,
    default_model: &str,
) -> (r: Result<ThreadState, String>)
    ensures
        match stored {
            Some(stored) => r == stored,
            None => {
                &&& r is Ok
                &&& r->Ok_0@ == fresh_state(default_model@, r->Ok_0.created_at_ms)
                &&& is_clock_time(r->Ok_0.created_at_ms)
            },
        },
{
    match stored {
        Some(stored) => stored,
        None => Ok(ThreadState::new(default_model)),
    }
}

/// What a prompt asks of the bridge.
enum Command {
    /// Switch to a model.
    Switch { model: String },
    /// Switch to a model that is not named.
    Nameless,
    /// Start afresh.
    Reset,
    /// Say how the thread stands.
    Status,
    /// Say what commands there are.
    Help,
    /// Nothing of the kind: it is for the assistant.
    Prompt,
}

/// What a prompt asks of the bridge.
fn read_command(prompt: &str) -> (r: Command)
    ensures
        match r {
            Command::Switch { model } => {
                &&& "/model "@.is_prefix_of(prompt@)
                &&& model@ == trimmed(prompt@.skip("/model "@.len() as int))
                &&& model@.len() > 0
            },
            Command::Nameless => {
                &&& "/model "@.is_prefix_of(prompt@)
                &&& trimmed(prompt@.skip("/model "@.len() as int)).len() == 0
            },
            _ => !"/model "@.is_prefix_of(prompt@),
        },
        r is Reset ==> prompt@ == "/reset"@,
        r is Status ==> prompt@ == "/status"@ && prompt@ != "/reset"@,
        r is Help ==> prompt@ == "/help"@ && prompt@ != "/reset"@ && prompt@ != "/status"@,
        r is Prompt ==> !is_command(prompt@),
{
    if let Some(rest) = strip_prefix(prompt, "/model ") {
        let model = trim(rest.as_str());
        if model.as_str().is_empty() {
            Command::Nameless
        } else {
            Command::Switch { model }
        }
    } else if same(prompt, "/reset") {
        Command::Reset
    } else if same(prompt, "/status") {
        Command::Status
    } else if same(prompt, "/help") {
        Command::Help
    } else {
        Command::Prompt
    }
}

/// Switches a thread to a model, at a point in time.
fn switch_model(thread_state: ThreadState, model: String, now: i64) -> (r: ThreadAction)
    ensures
        r@ == (ThreadActionView::SaveAndPost {
            state: touched(ThreadStateView { model: model@, ..thread_state@ }, now),
            text: "model switched to `"@ + model@ + "`"@,
        }),
{
    let text = "model switched to `".to_string().concat(model.as_str()).concat("`");
    let mut state = thread_state;
    state.model = model;
    state.touch_at(now);
    ThreadAction::SaveAndPost { state, text }
}

/// Starts a thread afresh, at a point in time.
fn reset_thread(config: &Config, now: i64) -> (r: ThreadAction)
    ensures
        r@ == (ThreadActionView::ResetAndPost {
            state: fresh_state(config@.default_model, now),
            text: "thread session reset"@,
        }),
{
    ThreadAction::ResetAndPost {
        state: ThreadState::starting_at(config.default_model.as_str(), now),
        text: "thread session reset".to_string(),
    }
}

/// What is to be done about a prompt that takes down no time.
fn timeless_action(
    config: &Config,
    context: &ThreadContext,
    state: ThreadState,
    command: Command,
) -> (r: ThreadAction)
    requires
        !(command is Switch),
        !(command is Reset),
    ensures
        match command {
            Command::Nameless => r@ == (ThreadActionView::Post {
                text: "usage: /model <model-name>"@,
            }),
            Command::Status => r@ == (ThreadActionView::Post {
                text: status_text(config@, context@, state@),
            }),
            Command::Help => r@ == (ThreadActionView::Post {
                text: "commands: `/model <name>`, `/status`, `/reset`"@,
            }),
            _ => r@ == (ThreadActionView::RunTurn { state: state@ }),
        },
{
    match command {
        Command::Nameless => ThreadAction::Post { text: "usage: /model <model-name>".to_string() },
        Command::Status => {
            let text = "model: `".to_string().concat(state.model.as_str()).concat(
                "`\npermission: `",
            ).concat(config.permission_mode.as_str()).concat("`\nsession: `").concat(
                context.paths.session.as_str(),
            ).concat("`");
            ThreadAction::Post { text }
        },
        Command::Help => ThreadAction::Post {
            text: "commands: `/model <name>`, `/status`, `/reset`".to_string(),
        },
        _ => ThreadAction::RunTurn { state },
    }
}

/// What is to be done about a prompt, at a point in time.
pub fn thread_action_at(
    config: &Config,
    context: &ThreadContext,
    thread_state: ThreadState,
    now: i64,
) -> (r: ThreadAction)
    ensures
        r@ == action_for(config@, context@, thread_state@, now),
{
    match read_command(context.prompt.as_str()) {
        Command::Switch { model } => switch_model(thread_state, model, now),
        Command::Reset => reset_thread(config, now),
        command => timeless_action(config, context, thread_state, command),
    }
}

/// What is to be done now about a prompt. The clock is read only where the time is taken
/// down: for a switch of the model and for a reset.
pub fn handle_thread_command_or_prompt(
    config: &Config,
    context: &ThreadContext,
    thread_state: ThreadState,
) -> (r: ThreadAction)
    ensures
        exists|now: i64|
            is_clock_time(now) && r@ == #[trigger] action_for(
                config@,
                context@,
                thread_state@,
                now,
            ),
{
    let ghost before = thread_state@;
    match read_command(context.prompt.as_str()) {
        Command::Switch { model } => {
            let now: i64 = now_millis();
            let action = switch_model(thread_state, model, now);
            assert(action@ == action_for(config@, context@, before, now));
            action
        },
        Command::Reset => {
            let now: i64 = now_millis();
            let action = reset_thread(config, now);
            assert(action@ == action_for(config@, context@, before, now));
            action
        },
        command => {
            let action = timeless_action(config, context, thread_state, command);
            assert(action@ == action_for(config@, context@, before, 0));
            action
        },
    }
}

/// Takes down, at a point in time, that a turn was run, and gives the reply to post:
/// what the assistant said in it, as it may be sent to Slack.
pub fn complete_turn_at(
    thread_state: &mut ThreadState,
    messages: &[ConversationMessage],
    now: i64,
) -> (r: String)
    requires
        old(thread_state).turn_count < u64::MAX,
    ensures
        final(thread_state)@ == after_turn(old(thread_state)@, now),
        r@ == limited(assistant_reply(message_views(messages@))),
{
    thread_state.turn_count = thread_state.turn_count + 1;
    thread_state.touch_at(now);
    limit_for_slack(render_assistant_reply(messages).as_str())
}

/// Takes down that a turn was run now, and gives the reply to post.
pub fn complete_turn(
    thread_state: &mut ThreadState,
    messages: &[ConversationMessage],
) -> (r: String)
    requires
        old(thread_state).turn_count < u64::MAX,
    ensures
        final(thread_state)@ == after_turn(old(thread_state)@, final(thread_state).updated_at_ms),
        is_clock_time(final(thread_state).updated_at_ms),
        r@ == limited(assistant_reply(message_views(messages@))),
{
    let now: i64 = now_millis();
    complete_turn_at(thread_state, messages, now)
}

/// Whether a prompt is a command to the bridge.
pub open spec fn is_command(prompt: Seq<char>) -> bool {
    ||| "/model "@.is_prefix_of(prompt)
    ||| prompt == "/reset"@
    ||| prompt == "/status"@
    ||| prompt == "/help"@
}

/// A turn is run for a prompt if and only if it is no command, and it starts from the
/// state as it was.
pub proof fn law_turns_are_run_for_all_but_commands(
    config: ConfigView,
    context: ThreadContextView,
    state: ThreadStateView,
    now: i64,
)
    ensures
        is_command(context.prompt) <==> !(action_for(config, context, state, now) is RunTurn),
        !is_command(context.prompt) ==> action_for(config, context, state, now) == (
        ThreadActionView::RunTurn { state }),
{
}

/// A prompt whose second character is another asks for no switch of the model.
proof fn lemma_no_switch(prompt: Seq<char>)
    requires
        prompt.len() > 1,
        prompt[1] != 'm',
    ensures
        !"/model "@.is_prefix_of(prompt),
{
    reveal_strlit("/model ");
    assert("/model "@[1] == 'm');
    if "/model "@.is_prefix_of(prompt) {
        assert(prompt[1] == prompt.subrange(0, "/model "@.len() as int)[1]);
    }
}

/// Asking for the status or for help changes nothing, whenever it is done.
pub proof fn law_questions_change_nothing(
    config: ConfigView,
    context: ThreadContextView,
    state: ThreadStateView,
    now: i64,
    later: i64,
)
    requires
        context.prompt == "/status"@ || context.prompt == "/help"@,
    ensures
        action_for(config, context, state, now) is Post,
        action_for(config, context, state, now) == action_for(config, context, state, later),
{
    reveal_strlit("/reset");
    reveal_strlit("/status");
    reveal_strlit("/help");
    assert("/reset"@[1] == 'r' && "/status"@[1] == 's' && "/help"@[1] == 'h');
    lemma_no_switch(context.prompt);
}

/// Switching the model changes the model and the time of the change, and nothing else.
pub proof fn law_model_switch(
    config: ConfigView,
    context: ThreadContextView,
    state: ThreadStateView,
    model: Seq<char>,
    now: i64,
)
    requires
        context.prompt == "/model "@ + model,
        !is_blank(model),
    ensures
        action_for(config, context, state, now) == (ThreadActionView::SaveAndPost {
            state: ThreadStateView { model: trimmed(model), updated_at_ms: now, ..state },
            text: "model switched to `"@ + trimmed(model) + "`"@,
        }),
{
    let head = "/model "@;
    assert(context.prompt.subrange(0, head.len() as int) == head);
    assert(context.prompt.skip(head.len() as int) == model);
    law_trimmed_is_empty_iff_blank(model);
}

/// The status of a thread names the model that it was switched to last.
pub proof fn law_status_names_the_switched_model(
    config: ConfigView,
    switch: ThreadContextView,
    question: ThreadContextView,
    state: ThreadStateView,
    model: Seq<char>,
    now: i64,
    later: i64,
)
    requires
        switch.prompt == "/model "@ + model,
        !is_blank(model),
        question.prompt == "/status"@,
    ensures
        action_for(
            config,
            question,
            action_for(config, switch, state, now)->SaveAndPost_state,
            later,
        ) == (ThreadActionView::Post {
            text: "model: `"@ + trimmed(model) + "`\npermission: `"@ + mode_name(
                config.permission_mode,
            ) + "`\nsession: `"@ + question.paths.session + "`"@,
        }),
{
    law_model_switch(config, switch, state, model, now);
    law_questions_change_nothing(
        config,
        question,
        action_for(config, switch, state, now)->SaveAndPost_state,
        later,
        later,
    );
    reveal_strlit("/status");
    reveal_strlit("/reset");
    assert("/status"@[1] == 's' && "/reset"@[1] == 'r');
    lemma_no_switch(question.prompt);
}

/// Resetting a thread leaves nothing of its state: it is as if the thread started then.
pub proof fn law_reset_starts_afresh(
    config: ConfigView,
    context: ThreadContextView,
    state: ThreadStateView,
    now: i64,
)
    requires
        context.prompt == "/reset"@,
    ensures
        action_for(config, context, state, now) == (ThreadActionView::ResetAndPost {
            state: fresh_state(config.default_model, now),
            text: "thread session reset"@,
        }),
{
    reveal_strlit("/reset");
    assert("/reset"@[1] == 'r');
    lemma_no_switch(context.prompt);
}

/// A prompt that comes from a Slack message never asks for a model without naming one:
/// the space behind the command would have been trimmed off.
pub proof fn law_prompt_of_a_message_names_the_model(
    config: ConfigView,
    context: ThreadContextView,
    state: ThreadStateView,
    now: i64,
    text: Seq<char>,
    remove_mentions: bool,
)
    requires
        context.prompt == prompt_of(text, remove_mentions),
    ensures
        "/model "@.is_prefix_of(context.prompt) ==> action_for(
            config,
            context,
            state,
            now,
        ) is SaveAndPost,
{
    let prompt = context.prompt;
    let head = "/model "@;
    if head.is_prefix_of(prompt) {
        reveal_strlit("/model ");
        law_prompt_is_trimmed(text, remove_mentions);
        let rest = prompt.skip(head.len() as int);
        law_trimmed_is_empty_iff_blank(rest);
        if rest.len() == 0 {
            assert(prompt.last() == prompt.subrange(0, head.len() as int)[head.len() - 1]);
            assert(head[6] == ' ');
        } else {
            assert(rest.last() == prompt.last());
            assert(!is_white_space(rest[rest.len() - 1]));
        }
    }
}

/// A turn counts one, and leaves the model and the time of creation as they were.
pub proof fn law_turns_are_counted(state: ThreadStateView, now: i64)
    requires
        state.turn_count < u64::MAX,
    ensures
        after_turn(state, now).turn_count == state.turn_count + 1,
        after_turn(state, now).model == state.model,
        after_turn(state, now).created_at_ms == state.created_at_ms,
{
}

/// A thread starts with the default model and no turn, and the time is both that of its
/// start and that of its last change.
pub proof fn law_threads_start_afresh(default_model: Seq<char>, now: i64)
    ensures
        fresh_state(default_model, now).model == default_model,
        fresh_state(default_model, now).turn_count == 0,
        fresh_state(default_model, now).created_at_ms == now,
        fresh_state(default_model, now).updated_at_ms == now,
{
}

/// A change sets the time of the last change and leaves all else as it was; a turn adds one
/// to the count besides.
pub proof fn law_changes_set_the_time(state: ThreadStateView, now: i64)
    ensures
        touched(state, now).model == state.model,
        touched(state, now).turn_count == state.turn_count,
        touched(state, now).created_at_ms == state.created_at_ms,
        touched(state, now).updated_at_ms == now,
        after_turn(state, now).model == state.model,
        state.turn_count < u64::MAX ==> after_turn(state, now).turn_count == state.turn_count + 1,
        after_turn(state, now).created_at_ms == state.created_at_ms,
        after_turn(state, now).updated_at_ms == now,
{
}

/// What is done about a prompt follows from how it reads. `/model ` with a name behind it
/// switches the model to that name, without the white space around it, and says so; without
/// a name it gets a hint. `/reset`, `/status` and `/help` are commands only as they stand.
/// For any other prompt a turn is run on the state as it was.
pub proof fn law_prompts_do_what_they_say(
    config: ConfigView,
    context: ThreadContextView,
    state: ThreadStateView,
    name: Seq<char>,
    now: i64,
)
    ensures
        ({
            let action = action_for(config, context, state, now);
            let prompt = context.prompt;
            &&& prompt == "/model "@ + name && trimmed(name).len() > 0 ==> {
                &&& action is SaveAndPost
                &&& action->SaveAndPost_state.model == trimmed(name)
                &&& action->SaveAndPost_state.turn_count == state.turn_count
                &&& action->SaveAndPost_state.created_at_ms == state.created_at_ms
                &&& action->SaveAndPost_state.updated_at_ms == now
                &&& action->SaveAndPost_text == "model switched to `"@ + trimmed(name) + "`"@
            }
            &&& prompt == "/model "@ + name && trimmed(name).len() == 0 ==> {
                &&& action is Post
                &&& action->Post_text == "usage: /model <model-name>"@
            }
            &&& prompt == "/reset"@ ==> {
                &&& action is ResetAndPost
                &&& action->ResetAndPost_state.model == config.default_model
                &&& action->ResetAndPost_state.turn_count == 0
                &&& action->ResetAndPost_state.created_at_ms == now
                &&& action->ResetAndPost_state.updated_at_ms == now
                &&& action->ResetAndPost_text == "thread session reset"@
            }
            &&& prompt == "/status"@ ==> {
                &&& action is Post
                &&& action->Post_text == "model: `"@ + state.model + "`\npermission: `"@
                    + mode_name(config.permission_mode) + "`\nsession: `"@ + context.paths.session
                    + "`"@
            }
            &&& prompt == "/help"@ ==> {
                &&& action is Post
                &&& action->Post_text == "commands: `/model <name>`, `/status`, `/reset`"@
            }
            &&& prompt != "/reset"@ && prompt != "/status"@ && prompt != "/help"@ && (prompt.len()
                < 7 || prompt.take(7) != "/model "@) ==> {
                &&& action is RunTurn
                &&& action->RunTurn_state == state
            }
        }),
{
    let prompt = context.prompt;
    let head = "/model "@;
    reveal_strlit("/model ");
    reveal_strlit("/reset");
    reveal_strlit("/status");
    reveal_strlit("/help");
    assert("/reset"@[1] == 'r' && "/status"@[1] == 's' && "/help"@[1] == 'h');
    if prompt == "/reset"@ || prompt == "/status"@ || prompt == "/help"@ {
        lemma_no_switch(prompt);
    }
    if prompt == head + name {
        assert(prompt.subrange(0, head.len() as int) =~= head);
        assert(prompt.skip(head.len() as int) =~= name);
        assert(head[1] == 'm');
        assert(prompt[1] == 'm');
    }
    if prompt.len() >= 7 {
        assert(prompt.take(7) =~= prompt.subrange(0, 7));
    }
}

/// States, prompts and actions are taken for what they hold, field by field.
pub proof fn law_threads_are_what_they_hold(
    state: ThreadState,
    context: ThreadContext,
    action: ThreadAction,
)
    ensures
        state@.model == state.model@,
        state@.turn_count == state.turn_count,
        state@.created_at_ms == state.created_at_ms,
        state@.updated_at_ms == state.updated_at_ms,
        context@.channel == context.channel@,
        context@.thread_ts == context.thread_ts@,
        context@.prompt == context.prompt@,
        context@.paths == context.paths@,
        action is Post <==> action@ is Post,
        action is SaveAndPost <==> action@ is SaveAndPost,
        action is ResetAndPost <==> action@ is ResetAndPost,
        action matches ThreadAction::Post { text } ==> action@->Post_text == text@,
        action matches ThreadAction::SaveAndPost { state, text } ==> action@->SaveAndPost_state
            == state@ && action@->SaveAndPost_text == text@,
        action matches ThreadAction::ResetAndPost { state, text } ==> action@->ResetAndPost_state
            == state@ && action@->ResetAndPost_text == text@,
        action matches ThreadAction::RunTurn { state } ==> action@->RunTurn_state == state@,
{
}

} // verus!
