use endless_slack::conversation::{ContentBlock, ConversationMessage, MessageRole};
use endless_slack::steps::{
    after_step, after_step_at, next_step, StepOutcome, ThreadProgress, ThreadStep,
};
use endless_slack::thread::{ThreadAction, ThreadState};

fn state() -> ThreadState {
    ThreadState { model: "m1".to_string(), turn_count: 3, created_at_ms: 10, updated_at_ms: 20 }
}

fn reset() -> ThreadAction {
    ThreadAction::ResetAndPost { state: state(), text: "done".to_string() }
}

fn turn() -> ThreadAction {
    ThreadAction::RunTurn { state: state() }
}

fn said(text: &str) -> StepOutcome {
    Ok(vec![ConversationMessage {
        role: MessageRole::Assistant,
        blocks: vec![ContentBlock::Text { text: text.to_string() }],
    }])
}

fn named(step: ThreadStep) -> String {
    match step {
        ThreadStep::RemoveSession => "remove".to_string(),
        ThreadStep::RunTurn { state } => format!("run {} {}", state.model, state.turn_count),
        ThreadStep::SaveState { state } => {
            format!("save {} {} {}", state.model, state.turn_count, state.updated_at_ms)
        }
        ThreadStep::PostText { text } => format!("post {text}"),
    }
}

fn taken(action: ThreadAction, outcomes: Vec<StepOutcome>) -> (Vec<String>, Result<(), String>) {
    let mut steps = Vec::new();
    let mut action = action;
    for outcome in outcomes {
        steps.push(named(next_step(&action)));
        match after_step_at(action, outcome, 50) {
            ThreadProgress::Continue { action: next } => action = next,
            ThreadProgress::Finished { result } => return (steps, result),
        }
    }
    panic!("steps are left");
}

fn none() -> StepOutcome {
    Ok(Vec::new())
}

fn failed() -> StepOutcome {
    Err("no".to_string())
}

#[test]
fn a_turn_is_run_then_saved_then_posted() {
    let (steps, result) = taken(turn(), vec![said("hi"), none(), none()]);
    assert_eq!(steps, ["run m1 3", "save m1 4 50", "post hi"]);
    assert_eq!(result, Ok(()));
}

#[test]
fn a_failed_turn_saves_and_posts_nothing() {
    let (steps, result) = taken(turn(), vec![failed(), none(), none()]);
    assert_eq!(steps, ["run m1 3"]);
    assert_eq!(result, Err("no".to_string()));
}

#[test]
fn a_failed_save_stops_the_post() {
    let (steps, result) = taken(turn(), vec![said("hi"), failed(), none()]);
    assert_eq!(steps, ["run m1 3", "save m1 4 50"]);
    assert_eq!(result, Err("no".to_string()));
    let switch = ThreadAction::SaveAndPost { state: state(), text: "switched".to_string() };
    let (steps, result) = taken(switch, vec![failed(), none()]);
    assert_eq!(steps, ["save m1 3 20"]);
    assert_eq!(result, Err("no".to_string()));
}

#[test]
fn a_failed_post_comes_after_the_save() {
    let (steps, result) = taken(turn(), vec![none(), none(), failed()]);
    assert_eq!(
        steps,
        ["run m1 3", "save m1 4 50", "post completed, but no assistant text was produced"]
    );
    assert_eq!(result, Err("no".to_string()));
}

#[test]
fn a_reset_removes_the_session_first() {
    let (steps, result) = taken(reset(), vec![none(), none(), none()]);
    assert_eq!(steps, ["remove", "save m1 3 20", "post done"]);
    assert_eq!(result, Ok(()));
    let (steps, result) = taken(reset(), vec![failed(), none(), none()]);
    assert_eq!(steps, ["remove"]);
    assert_eq!(result, Err("no".to_string()));
}

#[test]
fn a_text_is_only_posted() {
    let post = ThreadAction::Post { text: "status".to_string() };
    let (steps, result) = taken(post, vec![none()]);
    assert_eq!(steps, ["post status"]);
    assert_eq!(result, Ok(()));
}

#[test]
fn a_turn_is_counted_when_it_is_over() {
    match after_step(turn(), said("hi")) {
        ThreadProgress::Continue { action: ThreadAction::SaveAndPost { state, text } } => {
            assert_eq!((state.model.as_str(), state.turn_count, state.created_at_ms), ("m1", 4, 10));
            assert!(state.updated_at_ms > 1_600_000_000_000);
            assert_eq!(text, "hi");
        }
        other => panic!("{other:?}"),
    }
    match after_step(reset(), none()) {
        ThreadProgress::Continue { action: ThreadAction::SaveAndPost { state, .. } } => {
            assert_eq!((state.turn_count, state.updated_at_ms), (3, 20));
        }
        other => panic!("{other:?}"),
    }
    match after_step(turn(), failed()) {
        ThreadProgress::Finished { result } => assert_eq!(result, Err("no".to_string())),
        other => panic!("{other:?}"),
    }
}
