use endless_slack::config::{parse_permission_mode, PermissionMode};
use endless_slack::names::parse_csv_set;
use endless_slack::paths::sanitize_path_component;
use endless_slack::prompt::sanitize_slack_prompt;
use endless_slack::reply::limit_for_slack;

#[test]
fn sanitizes_mentions_for_app_mentions() {
    assert_eq!(
        sanitize_slack_prompt("<@U123> review this diff", true),
        "review this diff"
    );
}

#[test]
fn keeps_text_when_not_removing_mentions() {
    assert_eq!(
        sanitize_slack_prompt("follow up in thread", false),
        "follow up in thread"
    );
}

#[test]
fn parses_allowed_tools() {
    let parsed = parse_csv_set(Some("read_file, grep_search glob_search".to_string()))
        .expect("tools should parse");
    assert!(parsed.contains("read_file"));
    assert!(parsed.contains("grep_search"));
    assert!(parsed.contains("glob_search"));
}

#[test]
fn parses_permission_mode_values() {
    assert_eq!(
        parse_permission_mode("workspace-write").expect("mode should parse"),
        PermissionMode::WorkspaceWrite
    );
}

#[test]
fn truncates_long_messages() {
    let text = "a".repeat(5000);
    let limited = limit_for_slack(&text);
    assert!(limited.len() < text.len());
    assert!(limited.contains("[truncated for Slack]"));
}

#[test]
fn sanitizes_path_components() {
    assert_eq!(sanitize_path_component("C01.234"), "C01_234");
}
