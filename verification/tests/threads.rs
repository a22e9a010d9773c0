use chrono::{DateTime, Utc};
use endless_slack::clock::{
    current_date_string, date_string_at, EARLIEST_CLOCK_MS, LATEST_CLOCK_MS,
};
use endless_slack::config::{Config, Environment, PermissionMode};
use endless_slack::conversation::{ContentBlock, ConversationMessage, MessageRole};
use endless_slack::names::parse_csv_set;
use endless_slack::paths::thread_paths;
use endless_slack::prompt::sanitize_slack_prompt;
use endless_slack::thread::{
    complete_turn, complete_turn_at, handle_thread_command_or_prompt, load_thread_state,
    thread_action_at, ThreadAction, ThreadContext, ThreadState,
};
use endless_slack::turn::turn_plan;

fn config() -> Config {
    Config::from_env(Environment {
        current_dir: Ok("/work".to_string()),
        fallback_model: "m0".to_string(),
        workdir: None,
        state_dir: Some("/state".to_string()),
        slack_bind: None,
        slack_bot_token: Some("token".to_string()),
        slack_signing_secret: Some("secret".to_string()),
        default_model: None,
        permission_mode: Some("workspace-write".to_string()),
        allowed_tools: None,
        allowed_channels: None,
        system_prompt_append: None,
    })
    .expect("settings")
}

fn context(prompt: &str) -> ThreadContext {
    ThreadContext {
        channel: "C1".to_string(),
        thread_ts: "1.2".to_string(),
        prompt: prompt.to_string(),
        paths: thread_paths("/state", "C1", "1.2"),
    }
}

fn state() -> ThreadState {
    ThreadState { model: "m1".to_string(), turn_count: 3, created_at_ms: 10, updated_at_ms: 20 }
}

fn fields(state: &ThreadState) -> (&str, u64, i64, i64) {
    (&state.model, state.turn_count, state.created_at_ms, state.updated_at_ms)
}

#[test]
fn a_state_starts_with_the_default_model() {
    assert_eq!(fields(&ThreadState::starting_at("m0", 7)), ("m0", 0, 7, 7));
    let state = ThreadState::new("m0");
    assert_eq!((state.model.as_str(), state.turn_count), ("m0", 0));
    assert_eq!(state.created_at_ms, state.updated_at_ms);
    assert!(state.created_at_ms > 1_600_000_000_000);
}

#[test]
fn touching_moves_the_time_of_change_only() {
    let mut changed = state();
    changed.touch_at(99);
    assert_eq!(fields(&changed), ("m1", 3, 10, 99));
    changed.touch();
    assert_eq!((changed.model.as_str(), changed.turn_count, changed.created_at_ms), ("m1", 3, 10));
    assert!(changed.updated_at_ms > 1_600_000_000_000);
}

#[test]
fn states_are_loaded_or_started() {
    let loaded = load_thread_state(Some(Ok(state())), "m0").expect("state");
    assert_eq!(fields(&loaded), ("m1", 3, 10, 20));
    assert_eq!(load_thread_state(Some(Err("bad".to_string())), "m0").unwrap_err(), "bad");
    let fresh = load_thread_state(None, "m0").expect("state");
    assert_eq!((fresh.model.as_str(), fresh.turn_count), ("m0", 0));
}

#[test]
fn the_model_is_switched() {
    match thread_action_at(&config(), &context("/model   gpt-4.1 x "), state(), 50) {
        ThreadAction::SaveAndPost { state, text } => {
            assert_eq!(fields(&state), ("gpt-4.1 x", 3, 10, 50));
            assert_eq!(text, "model switched to `gpt-4.1 x`");
        }
        other => panic!("{other:?}"),
    }
}

#[test]
fn the_status_names_the_switched_model() {
    let switched = match thread_action_at(&config(), &context("/model grok-3"), state(), 50) {
        ThreadAction::SaveAndPost { state, .. } => state,
        other => panic!("{other:?}"),
    };
    match thread_action_at(&config(), &context("/status"), switched, 60) {
        ThreadAction::Post { text } => assert_eq!(
            text,
            "model: `grok-3`\npermission: `workspace-write`\nsession: `/state/sessions/C1_1_2.jsonl`"
        ),
        other => panic!("{other:?}"),
    }
}

#[test]
fn a_model_must_be_named() {
    match thread_action_at(&config(), &context("/model  "), state(), 50) {
        ThreadAction::Post { text } => assert_eq!(text, "usage: /model <model-name>"),
        other => panic!("{other:?}"),
    }
    let prompt = sanitize_slack_prompt(" /model  ", false);
    assert_eq!(prompt, "/model");
    assert!(matches!(
        thread_action_at(&config(), &context(&prompt), state(), 50),
        ThreadAction::RunTurn { .. }
    ));
}

#[test]
fn a_reset_starts_afresh() {
    match thread_action_at(&config(), &context("/reset"), state(), 50) {
        ThreadAction::ResetAndPost { state, text } => {
            assert_eq!(fields(&state), ("m0", 0, 50, 50));
            assert_eq!(text, "thread session reset");
        }
        other => panic!("{other:?}"),
    }
}

#[test]
fn help_lists_the_commands() {
    match handle_thread_command_or_prompt(&config(), &context("/help"), state()) {
        ThreadAction::Post { text } => {
            assert_eq!(text, "commands: `/model <name>`, `/status`, `/reset`")
        }
        other => panic!("{other:?}"),
    }
}

#[test]
fn other_prompts_run_a_turn() {
    for prompt in ["hello", "/resets", "/Help", "/model", " /reset", "/modelx y"] {
        match handle_thread_command_or_prompt(&config(), &context(prompt), state()) {
            ThreadAction::RunTurn { state } => assert_eq!(fields(&state), ("m1", 3, 10, 20)),
            other => panic!("{other:?}"),
        }
    }
}

#[test]
fn a_turn_is_counted_and_answered() {
    let said = [ConversationMessage {
        role: MessageRole::Assistant,
        blocks: vec![ContentBlock::Text { text: "a".repeat(3501) }],
    }];
    let mut after = state();
    let reply = complete_turn_at(&mut after, &said, 70);
    assert_eq!(fields(&after), ("m1", 4, 10, 70));
    assert_eq!(reply, "a".repeat(3476) + "\n\n[truncated for Slack]");
    let reply = complete_turn(&mut after, &[]);
    assert_eq!((after.model.as_str(), after.turn_count, after.created_at_ms), ("m1", 5, 10));
    assert_eq!(reply, "completed, but no assistant text was produced");
}

#[test]
fn touching_gives_a_time_of_the_clock() {
    assert_eq!(EARLIEST_CLOCK_MS, DateTime::<Utc>::MIN_UTC.timestamp_millis());
    assert_eq!(LATEST_CLOCK_MS, DateTime::<Utc>::MAX_UTC.timestamp_millis());
    for before in [i64::MIN, i64::MAX] {
        let mut changed = state();
        changed.touch_at(before);
        let from = Utc::now().timestamp_millis();
        changed.touch();
        let until = Utc::now().timestamp_millis();
        assert!(from <= changed.updated_at_ms && changed.updated_at_ms <= until);
    }
}

#[test]
fn dates_are_written_as_year_month_and_day() {
    assert_eq!(date_string_at(0), "1970-01-01");
    assert_eq!(date_string_at(-1), "1969-12-31");
    assert_eq!(date_string_at(951_825_599_999), "2000-02-29");
    assert_eq!(date_string_at(LATEST_CLOCK_MS), "+262142-12-31");
    assert_eq!(date_string_at(EARLIEST_CLOCK_MS), "-262143-01-01");
}

#[test]
fn the_date_is_today() {
    let from = Utc::now().format("%Y-%m-%d").to_string();
    let today = current_date_string();
    let until = Utc::now().format("%Y-%m-%d").to_string();
    assert!(today == from || today == until);
}

#[test]
fn a_turn_runs_on_the_thread() {
    let mut config = config();
    config.allowed_tools = parse_csv_set(Some("read_file".to_string()));
    config.system_prompt_append = Some("Be brief.".to_string());
    let loaded = Some(vec!["base".to_string()]);
    let plan = turn_plan(&config, &context("hello"), &state(), loaded, true);
    assert_eq!(plan.model, "m1");
    assert_eq!(plan.prompt, "hello");
    assert_eq!(plan.session, "/state/sessions/C1_1_2.jsonl");
    assert!(plan.resume);
    assert_eq!(plan.system_prompt.len(), 3);
    assert_eq!((plan.system_prompt[0].as_str(), plan.system_prompt[2].as_str()), ("base", "Be brief."));
    assert_eq!(plan.permission_mode, PermissionMode::WorkspaceWrite);
    assert_eq!(plan.allowed_tools.expect("tools").items(), &["read_file"]);
    assert_eq!(plan.max_iterations, 10);
    assert!(!turn_plan(&config, &context("hello"), &state(), None, false).resume);
}

#[test]
fn a_turn_runs_on_the_switched_model_until_a_reset() {
    let config = config();
    let switched = match thread_action_at(&config, &context("/model grok-3"), state(), 50) {
        ThreadAction::SaveAndPost { state, .. } => state,
        other => panic!("{other:?}"),
    };
    assert_eq!(turn_plan(&config, &context("go"), &switched, None, true).model, "grok-3");
    let fresh = match thread_action_at(&config, &context("/reset"), switched, 60) {
        ThreadAction::ResetAndPost { state, .. } => state,
        other => panic!("{other:?}"),
    };
    let plan = turn_plan(&config, &context("go"), &fresh, None, false);
    assert_eq!(plan.model, "m0");
    assert!(plan.allowed_tools.is_none());
}
