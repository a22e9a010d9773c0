use std::collections::BTreeMap;

use endless_slack::conversation::{
    convert_block, convert_messages, tool_input, ContentBlock, ConversationMessage,
    InputContentBlock, MessageRole, ToolResultContentBlock,
};
use endless_slack::names::parse_csv_set;
use endless_slack::response::{
    push_output_block, response_to_events, AssistantEvent, MessageResponse, OutputContentBlock,
};
use endless_slack::tools::{
    allowed_tool_definitions, checked_input, permission_policy, EndlessToolExecutor, ToolSpec,
};
use endless_slack::turn::{message_request, turn_system_prompt, ToolChoice};
use serde_json::Value;

fn json(text: &str) -> Value {
    serde_json::from_str(text).expect("JSON")
}

fn text(text: &str) -> ContentBlock {
    ContentBlock::Text { text: text.to_string() }
}

fn tool_use(input: &str) -> ContentBlock {
    ContentBlock::ToolUse {
        id: "t1".to_string(),
        name: "grep_search".to_string(),
        input: input.to_string(),
    }
}

fn input_of(block: InputContentBlock) -> Value {
    match block {
        InputContentBlock::ToolUse { id, name, input } => {
            assert_eq!(id, "t1");
            assert_eq!(name, "grep_search");
            input
        }
        other => panic!("{other:?}"),
    }
}

#[test]
fn tool_inputs_are_parsed_or_wrapped() {
    assert_eq!(input_of(convert_block(&tool_use("{\"a\": [1, null]}"))), json("{\"a\":[1,null]}"));
    let wrapped = input_of(convert_block(&tool_use("no \"JSON\"\n")));
    assert_eq!(wrapped.to_string(), "{\"raw\":\"no \\\"JSON\\\"\\n\"}");
    assert_eq!(wrapped.get("raw").and_then(Value::as_str), Some("no \"JSON\"\n"));
    assert_eq!(tool_input("x", Ok(json("3"))), json("3"));
    assert_eq!(tool_input("", Err("EOF".to_string())), json("{\"raw\":\"\"}"));
}

#[test]
fn conversations_go_to_a_provider_without_empty_messages() {
    let messages = [
        ConversationMessage { role: MessageRole::System, blocks: vec![text("s")] },
        ConversationMessage { role: MessageRole::User, blocks: vec![] },
        ConversationMessage { role: MessageRole::Assistant, blocks: vec![text("a"), tool_use("1")] },
        ConversationMessage {
            role: MessageRole::Tool,
            blocks: vec![ContentBlock::ToolResult {
                tool_use_id: "t1".to_string(),
                output: "out".to_string(),
                is_error: true,
            }],
        },
        ConversationMessage { role: MessageRole::User, blocks: vec![text("")] },
    ];
    let converted = convert_messages(&messages);
    let roles: Vec<&str> = converted.iter().map(|m| m.role.as_str()).collect();
    assert_eq!(roles, ["user", "assistant", "user", "user"]);
    assert_eq!(converted[1].content.len(), 2);
    assert!(matches!(&converted[0].content[0], InputContentBlock::Text { text } if text == "s"));
    assert!(matches!(&converted[3].content[0], InputContentBlock::Text { text } if text.is_empty()));
    match &converted[2].content[0] {
        InputContentBlock::ToolResult { tool_use_id, content, is_error } => {
            assert_eq!(tool_use_id, "t1");
            assert!(*is_error);
            assert_eq!(content.len(), 1);
            let ToolResultContentBlock::Text { text } = &content[0];
            assert_eq!(text, "out");
        }
        other => panic!("{other:?}"),
    }
    assert!(convert_messages(&[]).is_empty());
}

fn described(events: &[AssistantEvent<u32>]) -> Vec<String> {
    events
        .iter()
        .map(|event| match event {
            AssistantEvent::TextDelta(text) => format!("text {text}"),
            AssistantEvent::ToolUse { id, name, input } => format!("tool {id} {name} {input}"),
            AssistantEvent::Usage(usage) => format!("usage {usage}"),
            AssistantEvent::MessageStop => "stop".to_string(),
        })
        .collect()
}

fn call(id: &str, input: &str) -> OutputContentBlock {
    OutputContentBlock::ToolUse { id: id.to_string(), name: "bash".to_string(), input: json(input) }
}

#[test]
fn answers_become_events_in_order() {
    let events = response_to_events(MessageResponse {
        content: vec![
            OutputContentBlock::Thinking,
            OutputContentBlock::Text { text: "one".to_string() },
            call("a", "{ }"),
            OutputContentBlock::Text { text: String::new() },
            call("b", "{\"y\": 1, \"x\": 2}"),
            OutputContentBlock::RedactedThinking,
            OutputContentBlock::Text { text: "two".to_string() },
        ],
        usage: 42u32,
    });
    assert_eq!(
        described(&events),
        [
            "text one",
            "tool a bash {}",
            "tool b bash {\"x\":2,\"y\":1}",
            "text two",
            "usage 42",
            "stop"
        ]
    );
    let events = response_to_events(MessageResponse { content: vec![], usage: 7u32 });
    assert_eq!(described(&events), ["usage 7", "stop"]);
}

#[test]
fn streamed_tool_inputs_start_empty() {
    let mut events: Vec<AssistantEvent<u32>> = Vec::new();
    let mut pending = BTreeMap::new();
    push_output_block(call("a", "{}"), 0, &mut events, &mut pending, true);
    push_output_block(call("b", "{}"), 1, &mut events, &mut pending, false);
    push_output_block(call("c", "[]"), 2, &mut events, &mut pending, true);
    push_output_block(call("d", "{\"k\":{}}"), 3, &mut events, &mut pending, true);
    push_output_block(call("e", "\"{}\""), 4, &mut events, &mut pending, true);
    push_output_block(OutputContentBlock::Thinking, 5, &mut events, &mut pending, true);
    let inputs: Vec<&str> = pending.values().map(|(_, _, input)| input.as_str()).collect();
    assert_eq!(inputs, ["", "{}", "[]", "{\"k\":{}}", "\"{}\""]);
    assert!(events.is_empty());
    push_output_block(
        OutputContentBlock::Text { text: "t".to_string() },
        0,
        &mut events,
        &mut pending,
        true,
    );
    assert_eq!(described(&events), ["text t"]);
    assert_eq!(pending.len(), 5);
    assert_eq!(pending[&0], ("a".to_string(), "bash".to_string(), String::new()));
}

fn specs() -> Vec<ToolSpec<u8>> {
    ["bash", "read_file", "grep_search"]
        .iter()
        .enumerate()
        .map(|(i, name)| ToolSpec {
            name: name.to_string(),
            description: format!("the tool {name}"),
            input_schema: json(&format!("{{\"n\": {i}}}")),
            required_permission: i as u8,
        })
        .collect()
}

#[test]
fn providers_are_told_of_usable_tools() {
    let allowed = parse_csv_set(Some("grep_search,bash,other".to_string())).expect("names");
    let definitions = allowed_tool_definitions(specs(), Some(&allowed));
    let names: Vec<&str> = definitions.iter().map(|d| d.name.as_str()).collect();
    assert_eq!(names, ["bash", "grep_search"]);
    assert_eq!(definitions[1].description.as_deref(), Some("the tool grep_search"));
    assert_eq!(definitions[1].input_schema, json("{\"n\":2}"));
    assert_eq!(allowed_tool_definitions(specs(), None).len(), 3);
    let none = parse_csv_set(Some("other".to_string())).expect("names");
    assert!(allowed_tool_definitions(specs(), Some(&none)).is_empty());

    let executor = EndlessToolExecutor::new(Some(allowed));
    for definition in &definitions {
        assert!(executor.check_call(&definition.name, "{}").is_ok());
    }
    assert!(executor.check_call("read_file", "{}").is_err());
}

#[test]
fn policies_hold_what_each_tool_takes() {
    let policy = permission_policy(9u8, specs());
    assert_eq!(policy.mode, 9);
    assert_eq!(
        policy.requirements,
        vec![
            ("bash".to_string(), 0),
            ("read_file".to_string(), 1),
            ("grep_search".to_string(), 2)
        ]
    );
}

#[test]
fn tool_calls_are_checked() {
    let executor = EndlessToolExecutor::new(parse_csv_set(Some("bash".to_string())));
    assert_eq!(executor.check_call("bash", " {\"a\": 1} "), Ok(json("{\"a\":1}")));
    assert_eq!(
        executor.check_call("read_file", "{}"),
        Err("tool `read_file` is not enabled for the Slack bridge".to_string())
    );
    assert_eq!(
        executor.check_call("bash", ""),
        Err("invalid tool input JSON: EOF while parsing a value at line 1 column 0".to_string())
    );
    assert_eq!(EndlessToolExecutor::new(None).check_call("any", "null"), Ok(Value::Null));
    assert_eq!(checked_input(Err("bad".to_string())), Err("invalid tool input JSON: bad".to_string()));
}

#[test]
fn turns_have_a_system_prompt() {
    let placed = "You are replying inside a Slack thread. Keep responses concise, practical, and easy to scan in chat.";
    assert_eq!(
        turn_system_prompt(None, &None),
        ["You are Endless Code, a software engineering assistant.", placed]
    );
    assert_eq!(
        turn_system_prompt(Some(vec!["a".to_string(), "b".to_string()]), &Some("c".to_string())),
        ["a", "b", placed, "c"]
    );
    assert_eq!(turn_system_prompt(Some(vec![]), &None), [placed]);
}

#[test]
fn requests_offer_tools_if_there_are_any() {
    let messages = [ConversationMessage { role: MessageRole::User, blocks: vec![text("hi")] }];
    let sections = vec!["a".to_string(), "b".to_string()];
    let request = message_request(
        "m".to_string(),
        64,
        &messages,
        &sections,
        allowed_tool_definitions(specs(), None),
    );
    assert_eq!(request.model, "m");
    assert_eq!(request.max_tokens, 64);
    assert_eq!(request.messages.len(), 1);
    assert_eq!(request.system.as_deref(), Some("a\n\nb"));
    assert_eq!(request.tools.map(|tools| tools.len()), Some(3));
    assert_eq!(request.tool_choice, Some(ToolChoice::Auto));
    assert!(!request.stream);

    let request = message_request("m".to_string(), 64, &[], &Vec::new(), Vec::new());
    assert!(request.messages.is_empty());
    assert!(request.system.is_none());
    assert!(request.tools.is_none());
    assert!(request.tool_choice.is_none());
}

#[test]
fn what_was_said_before_keeps_its_form() {
    let said = |role: MessageRole, words: &[&str]| ConversationMessage {
        role,
        blocks: words.iter().map(|word| text(word)).collect(),
    };
    let before = [said(MessageRole::User, &["a"]), said(MessageRole::Assistant, &[])];
    let later = [said(MessageRole::Assistant, &["b", "c"])];
    let all = [
        said(MessageRole::User, &["a"]),
        said(MessageRole::Assistant, &[]),
        said(MessageRole::Assistant, &["b", "c"]),
    ];
    let mut pieces = convert_messages(&before);
    pieces.extend(convert_messages(&later));
    assert_eq!(format!("{:?}", convert_messages(&all)), format!("{pieces:?}"));
}

#[test]
fn texts_that_are_no_json_are_escaped() {
    for code in 0..0x100u32 {
        let c = char::from_u32(code).expect("character");
        let escaped = match c {
            '"' => "\\\"".to_string(),
            '\\' => "\\\\".to_string(),
            '\u{8}' => "\\b".to_string(),
            '\t' => "\\t".to_string(),
            '\n' => "\\n".to_string(),
            '\u{c}' => "\\f".to_string(),
            '\r' => "\\r".to_string(),
            c if code < 0x20 => format!("\\u{:04x}", c as u32),
            c => c.to_string(),
        };
        let wrapped = input_of(convert_block(&tool_use(&format!("x{c}"))));
        assert_eq!(wrapped.to_string(), format!("{{\"raw\":\"x{escaped}\"}}"));
    }
}
