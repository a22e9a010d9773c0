use endless_slack::conversation::{ContentBlock, ConversationMessage, MessageRole};
use endless_slack::post::{is_posted, post_message, post_outcome};
use endless_slack::reply::{limit_for_slack, render_assistant_reply, MAX_SLACK_TEXT_LEN};
use serde_json::Value;

fn json(text: &str) -> Value {
    serde_json::from_str(text).expect("JSON")
}

fn said(texts: &[&str]) -> ConversationMessage {
    ConversationMessage {
        role: MessageRole::Assistant,
        blocks: texts.iter().map(|t| ContentBlock::Text { text: t.to_string() }).collect(),
    }
}

#[test]
fn texts_up_to_the_limit_are_kept() {
    let text = "é".repeat(MAX_SLACK_TEXT_LEN);
    assert_eq!(limit_for_slack(&text), text);
    assert_eq!(limit_for_slack(""), "");
}

#[test]
fn longer_texts_are_cut_by_characters() {
    let text = "é".repeat(3501);
    let limited = limit_for_slack(&text);
    assert_eq!(limited, "é".repeat(3476) + "\n\n[truncated for Slack]");
    assert_eq!(limited.chars().count(), 3499);
    assert_eq!(limit_for_slack(&limited), limited);
}

#[test]
fn replies_hold_the_texts_of_all_messages() {
    let mut first = said(&["one"]);
    first.blocks.push(ContentBlock::ToolUse {
        id: "t".to_string(),
        name: "read_file".to_string(),
        input: "{}".to_string(),
    });
    first.blocks.push(ContentBlock::Text { text: "two".to_string() });
    let result = ConversationMessage {
        role: MessageRole::Tool,
        blocks: vec![ContentBlock::ToolResult {
            tool_use_id: "t".to_string(),
            output: "out".to_string(),
            is_error: false,
        }],
    };
    assert_eq!(render_assistant_reply(&[first, result, said(&["", " three "])]), "one\ntwo\n\n three ");
}

#[test]
fn replies_are_never_blank() {
    let note = "completed, but no assistant text was produced";
    assert_eq!(render_assistant_reply(&[]), note);
    assert_eq!(render_assistant_reply(&[said(&[" ", "\n"]), said(&[])]), note);
    let padded = " ".repeat(4000) + "x";
    let reply = limit_for_slack(&render_assistant_reply(&[said(&[&padded])]));
    assert!(!reply.trim().is_empty());
}

#[test]
fn messages_to_a_thread() {
    let message = post_message("C1", "1.2", &"a".repeat(4000));
    assert_eq!(message.channel, "C1");
    assert_eq!(message.thread_ts, "1.2");
    assert_eq!(message.text, "a".repeat(3476) + "\n\n[truncated for Slack]");
    assert!(!message.unfurl_links);
    assert!(!message.unfurl_media);
    assert_eq!(post_message("C1", "1.2", &message.text).text, message.text);
}

#[test]
fn slack_takes_a_message_if_status_and_answer_say_so() {
    assert_eq!(post_outcome(200, &json("{\"ok\": true}")), Ok(()));
    assert_eq!(post_outcome(299, &json("{\"ok\": true, \"ts\": \"1\"}")), Ok(()));
    assert_eq!(
        post_outcome(200, &json("{\"ok\": false, \"error\": \"not_in_channel\"}")),
        Err("Slack post failed: {\"error\":\"not_in_channel\",\"ok\":false}".to_string())
    );
    assert_eq!(
        post_outcome(500, &json("{ \"ok\" : true }")),
        Err("Slack post failed: {\"ok\":true}".to_string())
    );
    assert_eq!(
        post_outcome(200, &json("{\"ok\": \"true\"}")),
        Err("Slack post failed: {\"ok\":\"true\"}".to_string())
    );
    assert_eq!(post_outcome(200, &json("[true]")), Err("Slack post failed: [true]".to_string()));
    assert!(is_posted(204, Some(true)));
    assert!(!is_posted(300, Some(true)));
    assert!(!is_posted(199, Some(true)));
    assert!(!is_posted(200, None));
}
