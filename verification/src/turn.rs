//! What a turn of a conversation is run with.

use vstd::prelude::*;

use crate::config::{Config, ConfigView, PermissionMode};
use crate::conversation::{
    convert_messages, converted, input_views, message_views, ConversationMessage, InputMessage,
};
use crate::names::{tools_view, ToolNames};
use crate::text::{is_blank, join, joined, opt_view, trimmed, views};
use crate::thread::{
    action_for, law_model_switch, law_reset_starts_afresh, ThreadContext, ThreadContextView,
    ThreadState, ThreadStateView,
};
use crate::tools::ToolDefinition;

verus! {

/// How often a turn may go back to the provider.
pub const MAX_TURN_ITERATIONS: usize = 10;

/// What stands in for a system prompt that could not be loaded.
pub const FALLBACK_SECTION: &'static str =
    "You are Endless Code, a software engineering assistant.";

/// What an assistant that speaks in a Slack thread is told.
pub const SLACK_SECTION: &'static str =
    "You are replying inside a Slack thread. Keep responses concise, practical, and easy to scan in chat.";

/// Which tool a provider is to use.
#[derive(Clone, Copy, Debug, PartialEq, Eq, Structural)]
pub enum ToolChoice {
    /// The provider chooses.
    Auto,
}

/// What a provider is asked.
#[derive(Debug)]
pub struct MessageRequest {
    pub model: String,
    pub max_tokens: u32,
    pub messages: Vec<InputMessage>,
    pub system: Option<String>,
    pub tools: Option<Vec<ToolDefinition>>,
    pub tool_choice: Option<ToolChoice>,
    pub stream: bool,
}

/// What a turn is run with.
#[derive(Debug)]
pub struct TurnPlan {
    /// The model that answers, which may be named by an alias.
    pub model: String,
    /// What the assistant is asked.
    pub prompt: String,
    /// Where the session of the thread is kept.
    pub session: String,
    /// Whether the session that is kept goes on. Otherwise one is started, to be kept there.
    pub resume: bool,
    pub system_prompt: Vec<String>,
    pub permission_mode: PermissionMode,
    /// The tools that are offered and that may be called: all, if there is no list.
    pub allowed_tools: Option<ToolNames>,
    pub max_iterations: usize,
}

/// What a [`TurnPlan`] holds.
pub struct TurnPlanView {
    pub model: Seq<char>,
    pub prompt: Seq<char>,
    pub session: Seq<char>,
    pub resume: bool,
    pub system_prompt: Seq<Seq<char>>,
    pub permission_mode: PermissionMode,
    pub allowed_tools: Option<Set<Seq<char>>>,
    pub max_iterations: usize,
}

impl View for TurnPlan {
    type V = TurnPlanView;

    open spec fn view(&self) -> TurnPlanView {
        TurnPlanView {
            model: self.model@,
            prompt: self.prompt@,
            session: self.session@,
            resume: self.resume,
            system_prompt: views(self.system_prompt@),
            permission_mode: self.permission_mode,
            allowed_tools: tools_view(self.allowed_tools),
            max_iterations: self.max_iterations,
        }
    }
}

/// The system prompt of a turn: what was loaded or, where nothing could be, what the
/// assistant is; then where it speaks; then what the settings add.
pub open spec fn turn_prompt(
    loaded: Option<Seq<Seq<char>>>,
    append: Option<Seq<char>>,
) -> Seq<Seq<char>> {
    let base = match loaded {
        Some(sections) => sections,
        None => seq![FALLBACK_SECTION@],
    };
    let placed = base.push(SLACK_SECTION@);
    match append {
        Some(extra) => placed.push(extra),
        None => placed,
    }
}

/// The sections of a system prompt that may not be there.
pub open spec fn sections_view(loaded: Option<Vec<String>>) -> Option<Seq<Seq<char>>> {
    match loaded {
        Some(sections) => Some(views(sections@)),
        None => None,
    }
}

/// The sections of a system prompt as one text, if there are any.
pub open spec fn system_text(sections: Seq<Seq<char>>) -> Option<Seq<char>> {
    if sections.len() > 0 {
        Some(joined(sections, "\n\n"@))
    } else {
        None
    }
}

/// The system prompt of a turn.
pub fn turn_system_prompt(loaded: Option<Vec<String>>, append: &Option<String>) -> (r: Vec<String>)
    ensures
        views(r@) == turn_prompt(sections_view(loaded), opt_view(*append)),
{
    let mut sections = match loaded {
        Some(sections) => sections,
        None => {
            let mut sections: Vec<String> = Vec::new();
            sections.push(FALLBACK_SECTION.to_string());
            assert(views(sections@) == seq![FALLBACK_SECTION@]);
            sections
        },
    };
    let ghost base = views(sections@);
    sections.push(SLACK_SECTION.to_string());
    let ghost placed = views(sections@);
    assert(placed == base.push(SLACK_SECTION@));
    if let Some(extra) = append {
        sections.push(extra.clone());
        assert(views(sections@) == placed.push(extra@));
    }
    sections
}

/// What a turn is run with: the model of the thread, the prompt, the session of the
/// thread, which goes on if there is one, and what the settings say.
pub open spec fn plan_of(
    config: ConfigView,
    context: ThreadContextView,
    state: ThreadStateView,
    loaded: Option<Seq<Seq<char>>>,
    session_exists: bool,
) -> TurnPlanView {
    TurnPlanView {
        model: state.model,
        prompt: context.prompt,
        session: context.paths.session,
        resume: session_exists,
        system_prompt: turn_prompt(loaded, config.system_prompt_append),
        permission_mode: config.permission_mode,
        allowed_tools: config.allowed_tools,
        max_iterations: MAX_TURN_ITERATIONS,
    }
}

/// What a turn is run with. `loaded` is the system prompt, if it could be loaded, and
/// `session_exists` whether a session of the thread is kept.
pub fn turn_plan(
    config: &Config,
    context: &ThreadContext,
    state: &ThreadState,
    loaded: Option<Vec<String>>,
    session_exists: bool,
) -> (r: TurnPlan)
    ensures
        r@ == plan_of(config@, context@, state@, sections_view(loaded), session_exists),
        r.model@ == state.model@,
        r.prompt@ == context.prompt@,
        r.session@ == context.paths.session@,
        r.resume == session_exists,
        r.permission_mode == config.permission_mode,
        tools_view(r.allowed_tools) == tools_view(config.allowed_tools),
        r.max_iterations == 10,
{
    let allowed_tools = match &config.allowed_tools {
        Some(names) => Some(names.clone()),
        None => None,
    };
    TurnPlan {
        model: state.model.clone(),
        prompt: context.prompt.clone(),
        session: context.paths.session.clone(),
        resume: session_exists,
        system_prompt: turn_system_prompt(loaded, &config.system_prompt_append),
        permission_mode: config.permission_mode,
        allowed_tools,
        max_iterations: MAX_TURN_ITERATIONS,
    }
}

/// What a provider is asked in a turn: the conversation so far, under the system prompt,
/// with the tools that may be used, which it chooses from as it likes. The answer is to
/// come in one piece.
pub fn message_request(
    model: String,
    max_tokens: u32,
    messages: &[ConversationMessage],
    system_prompt: &Vec<String>,
    tools: Vec<ToolDefinition>,
) -> (r: MessageRequest)
    ensures
        r.model@ == model@,
        r.max_tokens == max_tokens,
        input_views(r.messages@) == converted(message_views(messages@)),
        opt_view(r.system) == system_text(views(system_prompt@)),
        if tools@.len() > 0 {
            r.tools == Some(tools) && r.tool_choice == Some(ToolChoice::Auto)
        } else {
            r.tools is None && r.tool_choice is None
        },
        !r.stream,
{
    let system = if system_prompt.len() > 0 {
        Some(join(system_prompt, "\n\n"))
    } else {
        None
    };
    let (tools, tool_choice) = if tools.len() > 0 {
        (Some(tools), Some(ToolChoice::Auto))
    } else {
        (None, None)
    };
    MessageRequest {
        model,
        max_tokens,
        messages: convert_messages(messages),
        system,
        tools,
        tool_choice,
        stream: false,
    }
}

/// Whatever was loaded and whatever the settings add, a turn has a system prompt, and a
/// provider is told where the assistant speaks.
pub proof fn law_turns_have_a_system_prompt(
    loaded: Option<Seq<Seq<char>>>,
    append: Option<Seq<char>>,
)
    ensures
        system_text(turn_prompt(loaded, append)) is Some,
        turn_prompt(loaded, append).contains(SLACK_SECTION@),
{
    let sections = turn_prompt(loaded, append);
    let at = if append is Some {
        sections.len() - 2
    } else {
        sections.len() - 1
    };
    assert(sections[at] == SLACK_SECTION@);
}

/// A turn runs on the model that its thread was switched to last, whatever the default.
pub proof fn law_turns_run_on_the_switched_model(
    config: ConfigView,
    switch: ThreadContextView,
    context: ThreadContextView,
    state: ThreadStateView,
    model: Seq<char>,
    now: i64,
    loaded: Option<Seq<Seq<char>>>,
    session_exists: bool,
)
    requires
        switch.prompt == "/model "@ + model,
        !is_blank(model),
    ensures
        plan_of(
            config,
            context,
            action_for(config, switch, state, now)->SaveAndPost_state,
            loaded,
            session_exists,
        ).model == trimmed(model),
{
    law_model_switch(config, switch, state, model, now);
}

/// After a reset, a turn runs on the default model again.
pub proof fn law_turns_run_on_the_default_model_after_a_reset(
    config: ConfigView,
    reset: ThreadContextView,
    context: ThreadContextView,
    state: ThreadStateView,
    now: i64,
    loaded: Option<Seq<Seq<char>>>,
    session_exists: bool,
)
    requires
        reset.prompt == "/reset"@,
    ensures
        plan_of(
            config,
            context,
            action_for(config, reset, state, now)->ResetAndPost_state,
            loaded,
            session_exists,
        ).model == config.default_model,
{
    law_reset_starts_afresh(config, reset, state, now);
}

/// A turn is run on the thread and under the settings: it has the model of the thread's
/// state, the prompt that was put, the session of the thread, which goes on if and only if
/// there is one, and the permission mode, the tools and the addition to the system prompt
/// that the settings give. It goes back to the provider ten times at most.
pub proof fn law_turns_follow_the_thread_and_the_settings(
    config: ConfigView,
    context: ThreadContextView,
    state: ThreadStateView,
    loaded: Option<Seq<Seq<char>>>,
    session_exists: bool,
)
    ensures
        ({
            let plan = plan_of(config, context, state, loaded, session_exists);
            &&& plan.model == state.model
            &&& plan.prompt == context.prompt
            &&& plan.session == context.paths.session
            &&& plan.resume == session_exists
            &&& plan.permission_mode == config.permission_mode
            &&& plan.allowed_tools == config.allowed_tools
            &&& plan.max_iterations == 10
            &&& plan.system_prompt == turn_prompt(loaded, config.system_prompt_append)
        }),
{
}

/// The system prompt of a turn begins with all that was loaded or, where nothing could be,
/// with one section that says what the assistant is. The next section says where it speaks.
/// What the settings add comes last, and nothing else does.
pub proof fn law_sections_of_the_system_prompt(
    loaded: Option<Seq<Seq<char>>>,
    append: Option<Seq<char>>,
)
    ensures
        ({
            let sections = turn_prompt(loaded, append);
            let base: int = if loaded is Some { loaded->0.len() as int } else { 1 };
            &&& sections.len() == base + (if append is Some { 2int } else { 1int })
            &&& loaded matches Some(given) ==> sections.take(base) == given
            &&& loaded is None ==> sections[0]
                == "You are Endless Code, a software engineering assistant."@
            &&& sections[base]
                == "You are replying inside a Slack thread. Keep responses concise, practical, and easy to scan in chat."@
            &&& append matches Some(extra) ==> sections[base + 1] == extra
        }),
{
    if let Some(given) = loaded {
        assert(turn_prompt(loaded, append).take(given.len() as int) =~= given);
    }
}

/// A provider gets the sections of a system prompt as one text, with an empty line between
/// each two of them, and none where there is no section.
pub proof fn law_sections_become_one_text(sections: Seq<Seq<char>>)
    ensures
        system_text(sections) is None <==> sections.len() == 0,
        sections.len() > 0 ==> system_text(sections)->0 == joined(sections, seq!['\n', '\n']),
{
    reveal_strlit("\n\n");
    assert("\n\n"@ =~= seq!['\n', '\n']);
}

/// A plan is taken for what it holds, field by field.
pub proof fn law_plans_are_what_they_hold(plan: TurnPlan, loaded: Option<Vec<String>>)
    ensures
        plan@.model == plan.model@,
        plan@.prompt == plan.prompt@,
        plan@.session == plan.session@,
        plan@.resume == plan.resume,
        plan@.system_prompt == views(plan.system_prompt@),
        plan@.permission_mode == plan.permission_mode,
        plan@.allowed_tools == tools_view(plan.allowed_tools),
        plan@.max_iterations == plan.max_iterations,
        sections_view(loaded) is Some <==> loaded is Some,
        loaded is Some ==> sections_view(loaded)->0 == views(loaded->0@),
{
}

} // verus!
