//! The steps that an action in a thread takes, one after the other, and where it stops.

use vstd::prelude::*;

use crate::clock::is_clock_time;
use crate::conversation::{message_views, ConversationMessage, ConversationMessageView};
use crate::reply::{assistant_reply, law_texts_are_cut_only_if_too_long, limited};
use crate::thread::{
    after_turn, complete_turn, complete_turn_at, ThreadAction, ThreadActionView, ThreadState,
    ThreadStateView,
};

verus! {

/// A step of an action in a thread.
#[derive(Debug)]
pub enum ThreadStep<'a> {
    /// Remove the file of the session, if there is one.
    RemoveSession,
    /// Run a turn of the conversation, from the state.
    RunTurn { state: &'a ThreadState },
    /// Write the state to its file.
    SaveState { state: &'a ThreadState },
    /// Post the text into the thread.
    PostText { text: &'a str },
}

/// How far an action has come.
#[derive(Debug)]
pub enum ThreadProgress {
    /// What is left is an action of its own.
    Continue { action: ThreadAction },
    /// Nothing is left to be done: it went well, or it stopped with a message.
    Finished { result: Result<(), String> },
}

/// What a [`ThreadStep`] holds.
pub enum ThreadStepView {
    RemoveSession,
    RunTurn { state: ThreadStateView },
    SaveState { state: ThreadStateView },
    PostText { text: Seq<char> },
}

/// What a [`ThreadProgress`] holds.
pub enum ThreadProgressView {
    Continue { action: ThreadActionView },
    Finished { result: Result<(), Seq<char>> },
}

/// What came of a step: the messages that the assistant wrote in it, of which there are
/// none but in a turn, or why it failed.
pub type StepOutcome = Result<Vec<ConversationMessage>, String>;

/// What a [`StepOutcome`] holds.
pub type StepOutcomeView = Result<Seq<ConversationMessageView>, Seq<char>>;

impl<'a> View for ThreadStep<'a> {
    type V = ThreadStepView;

    open spec fn view(&self) -> ThreadStepView {
        match *self {
            ThreadStep::RemoveSession => ThreadStepView::RemoveSession,
            ThreadStep::RunTurn { state } => ThreadStepView::RunTurn { state: state@ },
            ThreadStep::SaveState { state } => ThreadStepView::SaveState { state: state@ },
            ThreadStep::PostText { text } => ThreadStepView::PostText { text: text@ },
        }
    }
}

impl View for ThreadProgress {
    type V = ThreadProgressView;

    open spec fn view(&self) -> ThreadProgressView {
        match *self {
            ThreadProgress::Continue { action } => ThreadProgressView::Continue {
                action: action@,
            },
            ThreadProgress::Finished { result: Ok(_) } => ThreadProgressView::Finished {
                result: Ok(()),
            },
            ThreadProgress::Finished { result: Err(message) } => ThreadProgressView::Finished {
                result: Err(message@),
            },
        }
    }
}

/// What came of a step, taken by its view.
pub open spec fn step_outcome(outcome: StepOutcome) -> StepOutcomeView {
    match outcome {
        Ok(messages) => Ok(message_views(messages@)),
        Err(message) => Err(message@),
    }
}

/// The step that an action takes first.
pub open spec fn first_step(action: ThreadActionView) -> ThreadStepView {
    match action {
        ThreadActionView::Post { text } => ThreadStepView::PostText { text },
        ThreadActionView::SaveAndPost { state, .. } => ThreadStepView::SaveState { state },
        ThreadActionView::ResetAndPost { .. } => ThreadStepView::RemoveSession,
        ThreadActionView::RunTurn { state } => ThreadStepView::RunTurn { state },
    }
}

/// How far an action has come with its first step, at a point in time. A step that failed
/// is the last. After a turn, the state in which it is counted is to be saved and what the
/// assistant said in it is to be posted.
pub open spec fn progress_of(
    action: ThreadActionView,
    outcome: StepOutcomeView,
    now: i64,
) -> ThreadProgressView {
    match (outcome, action) {
        (Err(message), _) => ThreadProgressView::Finished { result: Err(message) },
        (Ok(_), ThreadActionView::Post { .. }) => ThreadProgressView::Finished { result: Ok(()) },
        (Ok(_), ThreadActionView::SaveAndPost { text, .. }) => ThreadProgressView::Continue {
            action: ThreadActionView::Post { text },
        },
        (Ok(_), ThreadActionView::ResetAndPost { state, text }) => ThreadProgressView::Continue {
            action: ThreadActionView::SaveAndPost { state, text },
        },
        (Ok(messages), ThreadActionView::RunTurn { state }) => ThreadProgressView::Continue {
            action: ThreadActionView::SaveAndPost {
                state: after_turn(state, now),
                text: limited(assistant_reply(messages)),
            },
        },
    }
}

/// The steps of an action in their order, where none fails. What the assistant says, and
/// when, matters for a turn only.
pub open spec fn steps_of(
    action: ThreadActionView,
    said: Seq<ConversationMessageView>,
    now: i64,
) -> Seq<ThreadStepView> {
    match action {
        ThreadActionView::Post { text } => seq![ThreadStepView::PostText { text }],
        ThreadActionView::SaveAndPost { state, text } => seq![
            ThreadStepView::SaveState { state },
            ThreadStepView::PostText { text },
        ],
        ThreadActionView::ResetAndPost { state, text } => seq![
            ThreadStepView::RemoveSession,
            ThreadStepView::SaveState { state },
            ThreadStepView::PostText { text },
        ],
        ThreadActionView::RunTurn { state } => seq![
            ThreadStepView::RunTurn { state },
            ThreadStepView::SaveState { state: after_turn(state, now) },
            ThreadStepView::PostText { text: limited(assistant_reply(said)) },
        ],
    }
}

/// The steps that an action takes, if this comes of them one after the other.
pub open spec fn steps_taken(
    action: ThreadActionView,
    outcomes: Seq<StepOutcomeView>,
    now: i64,
) -> Seq<ThreadStepView>
    decreases outcomes.len(),
{
    if outcomes.len() == 0 {
        Seq::empty()
    } else {
        seq![first_step(action)] + match progress_of(action, outcomes[0], now) {
            ThreadProgressView::Continue { action } => steps_taken(
                action,
                outcomes.drop_first(),
                now,
            ),
            ThreadProgressView::Finished { .. } => Seq::empty(),
        }
    }
}

/// How an action ends, if this comes of its steps one after the other, and if that is
/// enough for it to end.
pub open spec fn end_of(
    action: ThreadActionView,
    outcomes: Seq<StepOutcomeView>,
    now: i64,
) -> Option<Result<(), Seq<char>>>
    decreases outcomes.len(),
{
    if outcomes.len() == 0 {
        None
    } else {
        match progress_of(action, outcomes[0], now) {
            ThreadProgressView::Continue { action } => end_of(action, outcomes.drop_first(), now),
            ThreadProgressView::Finished { result } => Some(result),
        }
    }
}

/// What the assistant said in the first of the steps that this came of.
pub open spec fn said_first(outcomes: Seq<StepOutcomeView>) -> Seq<ConversationMessageView> {
    if outcomes.len() > 0 && outcomes[0] is Ok {
        outcomes[0]->Ok_0
    } else {
        Seq::empty()
    }
}

/// The step that an action takes first.
pub fn next_step(action: &ThreadAction) -> (r: ThreadStep<'_>)
    ensures
        r@ == first_step(action@),
{
    match action {
        ThreadAction::Post { text } => ThreadStep::PostText { text: text.as_str() },
        ThreadAction::SaveAndPost { state, .. } => ThreadStep::SaveState { state },
        ThreadAction::ResetAndPost { .. } => ThreadStep::RemoveSession,
        ThreadAction::RunTurn { state } => ThreadStep::RunTurn { state },
    }
}

/// How far an action that is no turn has come with its first step.
fn after_plain_step(action: ThreadAction) -> (r: ThreadProgress)
    requires
        !(action is RunTurn),
    ensures
        forall|said: Seq<ConversationMessageView>, now: i64|
            r@ == #[trigger] progress_of(action@, Ok(said), now),
{
    match action {
        ThreadAction::SaveAndPost { text, .. } => ThreadProgress::Continue {
            action: ThreadAction::Post { text },
        },
        ThreadAction::ResetAndPost { state, text } => ThreadProgress::Continue {
            action: ThreadAction::SaveAndPost { state, text },
        },
        _ => ThreadProgress::Finished { result: Ok(()) },
    }
}

/// How far an action has come with its first step, at a point in time.
pub fn after_step_at(action: ThreadAction, outcome: StepOutcome, now: i64) -> (r: ThreadProgress)
    requires
        action is RunTurn && outcome is Ok ==> action->RunTurn_state.turn_count < u64::MAX,
    ensures
        r@ == progress_of(action@, step_outcome(outcome), now),
{
    match outcome {
        Err(message) => ThreadProgress::Finished { result: Err(message) },
        Ok(messages) => match action {
            ThreadAction::RunTurn { state } => {
                let mut state = state;
                let text = complete_turn_at(&mut state, messages.as_slice(), now);
                ThreadProgress::Continue { action: ThreadAction::SaveAndPost { state, text } }
            },
            action => after_plain_step(action),
        },
    }
}

/// How far an action has come with its first step, now. The clock is read only after a
/// turn.
pub fn after_step(action: ThreadAction, outcome: StepOutcome) -> (r: ThreadProgress)
    requires
        action is RunTurn && outcome is Ok ==> action->RunTurn_state.turn_count < u64::MAX,
    ensures
        exists|now: i64|
            is_clock_time(now) && r@ == #[trigger] progress_of(
                action@,
                step_outcome(outcome),
                now,
            ),
{
    let ghost before = action@;
    let ghost came = step_outcome(outcome);
    match outcome {
        Err(message) => {
            let progress = ThreadProgress::Finished { result: Err(message) };
            assert(progress@ == progress_of(before, came, 0));
            progress
        },
        Ok(messages) => match action {
            ThreadAction::RunTurn { state } => {
                let mut state = state;
                let text = complete_turn(&mut state, messages.as_slice());
                let ghost now = state.updated_at_ms;
                let progress = ThreadProgress::Continue {
                    action: ThreadAction::SaveAndPost { state, text },
                };
                assert(progress@ == progress_of(before, came, now));
                progress
            },
            action => {
                let progress = after_plain_step(action);
                assert(progress@ == progress_of(before, came, 0));
                progress
            },
        },
    }
}

/// Whatever comes of them, the steps of an action are taken in their order and up to the
/// first that fails: those that were taken are the first of its steps, and all but the
/// last of them went well. Where some are left, it is not yet known what comes of the
/// next, or the last one failed.
pub proof fn law_steps_are_taken_up_to_the_first_that_fails(
    action: ThreadActionView,
    outcomes: Seq<StepOutcomeView>,
    now: i64,
)
    ensures
        steps_taken(action, outcomes, now).is_prefix_of(
            steps_of(action, said_first(outcomes), now),
        ),
        steps_taken(action, outcomes, now).len() <= outcomes.len(),
        forall|i: int|
            0 <= i < steps_taken(action, outcomes, now).len() - 1 ==> (#[trigger] outcomes[i]) is Ok,
        ({
            let taken = steps_taken(action, outcomes, now).len();
            ||| taken == steps_of(action, said_first(outcomes), now).len()
            ||| taken == outcomes.len()
            ||| taken > 0 && outcomes[taken - 1] is Err
        }),
    decreases outcomes.len(),
{
    let taken = steps_taken(action, outcomes, now);
    let all = steps_of(action, said_first(outcomes), now);
    if outcomes.len() > 0 {
        if let ThreadProgressView::Continue { action: next } = progress_of(
            action,
            outcomes[0],
            now,
        ) {
            let later = outcomes.drop_first();
            let rest = steps_taken(next, later, now);
            law_steps_are_taken_up_to_the_first_that_fails(next, later, now);
            assert(taken == seq![first_step(action)] + rest);
            assert(all == seq![first_step(action)] + steps_of(next, said_first(later), now));
            assert forall|i: int| 0 <= i < taken.len() - 1 implies (
            #[trigger] outcomes[i]) is Ok by {
                if i > 0 {
                    assert(later[i - 1] == outcomes[i]);
                }
            }
            if rest.len() > 0 {
                assert(later[rest.len() - 1] == outcomes[taken.len() - 1]);
            }
        } else {
            assert(taken == seq![first_step(action)]);
        }
    }
}

/// An action ends well if and only if each of its steps was taken and went well; it ends
/// with a message if and only if the last step that was taken failed with it.
pub proof fn law_an_action_ends_as_its_last_step(
    action: ThreadActionView,
    outcomes: Seq<StepOutcomeView>,
    now: i64,
)
    ensures
        ({
            let taken = steps_taken(action, outcomes, now).len();
            match end_of(action, outcomes, now) {
                Some(Ok(_)) => {
                    &&& taken == steps_of(action, said_first(outcomes), now).len()
                    &&& outcomes[taken - 1] is Ok
                },
                Some(Err(message)) => {
                    &&& taken > 0
                    &&& outcomes[taken - 1] == Err::<Seq<ConversationMessageView>, Seq<char>>(
                        message,
                    )
                },
                None => {
                    &&& taken < steps_of(action, said_first(outcomes), now).len()
                    &&& taken == 0 || outcomes[taken - 1] is Ok
                },
            }
        }),
    decreases outcomes.len(),
{
    if outcomes.len() > 0 {
        if let ThreadProgressView::Continue { action: next } = progress_of(
            action,
            outcomes[0],
            now,
        ) {
            let later = outcomes.drop_first();
            let rest = steps_taken(next, later, now);
            law_an_action_ends_as_its_last_step(next, later, now);
            law_steps_are_taken_up_to_the_first_that_fails(next, later, now);
            if rest.len() > 0 {
                assert(later[rest.len() - 1] == outcomes[rest.len() as int]);
            }
        }
    }
}

/// Nothing is posted before the state is saved: unless the action is only to post a text,
/// the step before a post is a save that went well.
pub proof fn law_nothing_is_posted_before_the_save(
    action: ThreadActionView,
    outcomes: Seq<StepOutcomeView>,
    now: i64,
    i: int,
)
    requires
        !(action is Post),
        0 <= i < steps_taken(action, outcomes, now).len(),
        steps_taken(action, outcomes, now)[i] is PostText,
    ensures
        i > 0,
        steps_taken(action, outcomes, now)[i - 1] is SaveState,
        outcomes[i - 1] is Ok,
{
    law_steps_are_taken_up_to_the_first_that_fails(action, outcomes, now);
    let taken = steps_taken(action, outcomes, now);
    let all = steps_of(action, said_first(outcomes), now);
    assert(taken[i] == all.subrange(0, taken.len() as int)[i]);
    assert(i > 0);
    assert(taken[i - 1] == all.subrange(0, taken.len() as int)[i - 1]);
}

/// A turn that fails leaves the thread as it was: nothing is saved, nothing is posted, and
/// the action ends with the message of the turn.
pub proof fn law_a_failed_turn_changes_nothing(
    state: ThreadStateView,
    message: Seq<char>,
    later: Seq<StepOutcomeView>,
    now: i64,
)
    ensures
        ({
            let action = ThreadActionView::RunTurn { state };
            let outcomes = seq![Err::<Seq<ConversationMessageView>, Seq<char>>(message)] + later;
            &&& steps_taken(action, outcomes, now) == seq![ThreadStepView::RunTurn { state }]
            &&& end_of(action, outcomes, now) == Some(Err::<(), Seq<char>>(message))
        }),
{
}

/// A reset begins with the removal of the session: where that fails, nothing is saved and
/// nothing is posted.
pub proof fn law_a_reset_removes_the_session_first(
    state: ThreadStateView,
    text: Seq<char>,
    outcomes: Seq<StepOutcomeView>,
    now: i64,
)
    requires
        outcomes.len() > 0,
    ensures
        ({
            let taken = steps_taken(
                ThreadActionView::ResetAndPost { state, text },
                outcomes,
                now,
            );
            &&& taken[0] is RemoveSession
            &&& outcomes[0] is Err ==> taken.len() == 1
        }),
{
}

/// An action begins with what it is for: a reset with the removal of the session, a turn
/// with the turn, from the state of the thread, a change with the save of the changed state,
/// and a text with the post of it.
pub proof fn law_actions_begin_with_what_they_are_for(
    state: ThreadStateView,
    text: Seq<char>,
)
    ensures
        first_step(ThreadActionView::ResetAndPost { state, text }) is RemoveSession,
        first_step(ThreadActionView::RunTurn { state }) is RunTurn,
        first_step(ThreadActionView::RunTurn { state })->RunTurn_state == state,
        first_step(ThreadActionView::SaveAndPost { state, text }) is SaveState,
        first_step(ThreadActionView::SaveAndPost { state, text })->SaveState_state == state,
        first_step(ThreadActionView::Post { text }) is PostText,
        first_step(ThreadActionView::Post { text })->PostText_text == text,
{
}

/// A step that failed ends the action with its message, whatever the action. After one that
/// went well, a turn goes on with the save of the state in which it is counted, and with
/// the post of what was said in it; a reset and a change go on with what is left of them;
/// and a post is the end.
pub proof fn law_steps_lead_to_the_next(
    action: ThreadActionView,
    state: ThreadStateView,
    text: Seq<char>,
    said: Seq<ConversationMessageView>,
    message: Seq<char>,
    now: i64,
)
    ensures
        progress_of(action, Err(message), now) is Finished,
        progress_of(action, Err(message), now)->result == Err::<(), Seq<char>>(message),
        progress_of(ThreadActionView::Post { text }, Ok(said), now) is Finished,
        progress_of(ThreadActionView::Post { text }, Ok(said), now)->result is Ok,
        ({
            let next = progress_of(ThreadActionView::SaveAndPost { state, text }, Ok(said), now);
            &&& next is Continue
            &&& next->action is Post
            &&& next->action->Post_text == text
        }),
        ({
            let next = progress_of(ThreadActionView::ResetAndPost { state, text }, Ok(said), now);
            &&& next is Continue
            &&& next->action is SaveAndPost
            &&& next->action->SaveAndPost_state == state
            &&& next->action->SaveAndPost_text == text
        }),
        ({
            let next = progress_of(ThreadActionView::RunTurn { state }, Ok(said), now);
            &&& next is Continue
            &&& next->action is SaveAndPost
            &&& next->action->SaveAndPost_state.model == state.model
            &&& state.turn_count < u64::MAX ==> next->action->SaveAndPost_state.turn_count
                == state.turn_count + 1
            &&& next->action->SaveAndPost_state.created_at_ms == state.created_at_ms
            &&& next->action->SaveAndPost_state.updated_at_ms == now
            &&& assistant_reply(said).len() <= 3500 ==> next->action->SaveAndPost_text
                == assistant_reply(said)
            &&& assistant_reply(said).len() > 3500 ==> next->action->SaveAndPost_text
                == assistant_reply(said).take(3476) + "\n\n[truncated for Slack]"@
        }),
{
    let reply = assistant_reply(said);
    law_texts_are_cut_only_if_too_long(reply);
    if reply.len() > 3500 {
        assert(limited(reply) =~= limited(reply).take(3476) + limited(reply).skip(3476));
        assert(limited(reply).take(3476) =~= reply.take(3476));
    }
}

/// Where all goes well, a turn is run, then its state is saved, then its reply is posted; a
/// reset removes the session, then saves, then posts; a change is saved, then posted; and
/// each ends well then.
pub proof fn law_steps_where_all_goes_well(
    state: ThreadStateView,
    text: Seq<char>,
    first: Seq<ConversationMessageView>,
    second: Seq<ConversationMessageView>,
    third: Seq<ConversationMessageView>,
    now: i64,
)
    requires
        state.turn_count < u64::MAX,
    ensures
        ({
            let outcomes: Seq<StepOutcomeView> = seq![Ok(first), Ok(second), Ok(third)];
            let turn = ThreadActionView::RunTurn { state };
            let counted = ThreadStateView {
                turn_count: (state.turn_count + 1) as u64,
                updated_at_ms: now,
                ..state
            };
            &&& steps_taken(turn, outcomes, now) == seq![
                ThreadStepView::RunTurn { state },
                ThreadStepView::SaveState { state: counted },
                ThreadStepView::PostText { text: limited(assistant_reply(first)) },
            ]
            &&& end_of(turn, outcomes, now) == Some(Ok::<(), Seq<char>>(()))
        }),
        ({
            let outcomes: Seq<StepOutcomeView> = seq![Ok(first), Ok(second), Ok(third)];
            let reset = ThreadActionView::ResetAndPost { state, text };
            &&& steps_taken(reset, outcomes, now) == seq![
                ThreadStepView::RemoveSession,
                ThreadStepView::SaveState { state },
                ThreadStepView::PostText { text },
            ]
            &&& end_of(reset, outcomes, now) == Some(Ok::<(), Seq<char>>(()))
        }),
        ({
            let outcomes: Seq<StepOutcomeView> = seq![Ok(first), Ok(second)];
            let change = ThreadActionView::SaveAndPost { state, text };
            &&& steps_taken(change, outcomes, now) == seq![
                ThreadStepView::SaveState { state },
                ThreadStepView::PostText { text },
            ]
            &&& end_of(change, outcomes, now) == Some(Ok::<(), Seq<char>>(()))
        }),
{
    let three: Seq<StepOutcomeView> = seq![Ok(first), Ok(second), Ok(third)];
    let two: Seq<StepOutcomeView> = seq![Ok(first), Ok(second)];
    assert(three.drop_first() =~= seq![Ok(second), Ok(third)]);
    assert(three.drop_first().drop_first() =~= seq![Ok(third)]);
    assert(two.drop_first() =~= seq![Ok(second)]);
    reveal_with_fuel(steps_taken, 4);
    reveal_with_fuel(end_of, 4);
    assert(steps_taken(ThreadActionView::RunTurn { state }, three, now) =~= steps_of(
        ThreadActionView::RunTurn { state },
        first,
        now,
    ));
    assert(steps_taken(ThreadActionView::ResetAndPost { state, text }, three, now) =~= steps_of(
        ThreadActionView::ResetAndPost { state, text },
        first,
        now,
    ));
    assert(steps_taken(ThreadActionView::SaveAndPost { state, text }, two, now) =~= steps_of(
        ThreadActionView::SaveAndPost { state, text },
        first,
        now,
    ));
}

/// Steps, how far an action has come and what came of a step are taken for what they hold,
/// field by field.
pub proof fn law_steps_are_what_they_hold(
    step: ThreadStep<'_>,
    progress: ThreadProgress,
    outcome: StepOutcome,
)
    ensures
        step is RemoveSession <==> step@ is RemoveSession,
        step is RunTurn <==> step@ is RunTurn,
        step is SaveState <==> step@ is SaveState,
        step matches ThreadStep::RunTurn { state } ==> step@->RunTurn_state == state@,
        step matches ThreadStep::SaveState { state } ==> step@->SaveState_state == state@,
        step matches ThreadStep::PostText { text } ==> step@->PostText_text == text@,
        progress is Continue <==> progress@ is Continue,
        progress matches ThreadProgress::Continue { action } ==> progress@->action == action@,
        progress matches ThreadProgress::Finished { result } ==> {
            &&& progress@->result is Ok <==> result is Ok
            &&& result is Err ==> progress@->result->Err_0 == result->Err_0@
        },
        step_outcome(outcome) is Ok <==> outcome is Ok,
        outcome is Ok ==> step_outcome(outcome)->Ok_0 == message_views(outcome->Ok_0@),
        outcome is Err ==> step_outcome(outcome)->Err_0 == outcome->Err_0@,
{
}

} // verus!
