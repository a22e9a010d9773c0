use axum::http::{HeaderMap, HeaderValue};
use endless_slack::config::{Config, Environment};
use endless_slack::events::{
    answer_request, authorize, locate_thread, process_event, slack_events, SlackEnvelope, SlackEvent, SlackReply,
};
use endless_slack::signature::{
    check_signature, header_value, signature_payload, verify_slack_signature,
};

fn headers(timestamp: &str, signature: &str) -> HeaderMap {
    let mut map = HeaderMap::new();
    map.insert("X-Slack-Request-Timestamp", HeaderValue::from_str(timestamp).expect("value"));
    map.insert("x-slack-signature", HeaderValue::from_str(signature).expect("value"));
    map
}

const BODY: &str = "{\"type\":\"event_callback\"}";
const SIGNATURE: &str = "v0=caaf0c06d64c026ebf87b6227af7d6ee9e18ae23d7d0107d89a605a54eca5390";

#[test]
fn signed_requests_pass() {
    assert_eq!(verify_slack_signature("secret", &headers("1700000000", SIGNATURE), BODY), Ok(()));
    assert_eq!(
        verify_slack_signature(
            "schlüssel",
            &headers(
                "1700000000",
                "v0=5b7be1233dd8a2b69a955b91bdc70468f7abf16f972d8cbce1b042551c2b4a21"
            ),
            "überall"
        ),
        Ok(())
    );
    assert_eq!(
        verify_slack_signature(
            &"k".repeat(100),
            &headers("1", "v0=235c109d00c86831605584f886616e05f05b2fbff5e049bb0b3bee3e6abce06a"),
            ""
        ),
        Ok(())
    );
}

#[test]
fn anything_else_about_a_request_makes_its_signature_wrong() {
    let wrong = Err("invalid Slack signature".to_string());
    let good = headers("1700000000", SIGNATURE);
    assert_eq!(verify_slack_signature("Secret", &good, BODY), wrong);
    assert_eq!(verify_slack_signature("secret", &good, ""), wrong);
    assert_eq!(verify_slack_signature("secret", &headers("1700000001", SIGNATURE), BODY), wrong);
    let upper = SIGNATURE.to_uppercase();
    assert_eq!(verify_slack_signature("secret", &headers("1700000000", &upper), BODY), wrong);
    assert_eq!(verify_slack_signature("secret", &headers("1700000000", ""), BODY), wrong);
}

#[test]
fn headers_must_be_there_and_be_text() {
    let mut map = HeaderMap::new();
    assert_eq!(
        verify_slack_signature("secret", &map, BODY),
        Err("missing header: x-slack-request-timestamp".to_string())
    );
    map.insert("x-slack-request-timestamp", HeaderValue::from_static("1"));
    assert_eq!(
        verify_slack_signature("secret", &map, BODY),
        Err("missing header: x-slack-signature".to_string())
    );
    map.insert("x-slack-signature", HeaderValue::from_bytes(b"v0=\xff").expect("value"));
    assert_eq!(
        verify_slack_signature("secret", &map, BODY),
        Err("failed to convert header to a str".to_string())
    );
}

#[test]
fn the_first_value_of_a_header_counts() {
    let mut map = HeaderMap::new();
    map.append("a", HeaderValue::from_static("one\ttwo ~"));
    map.append("a", HeaderValue::from_static("three"));
    assert_eq!(header_value(&map, "a"), Ok("one\ttwo ~".to_string()));
    assert_eq!(header_value(&map, "b"), Err("missing header: b".to_string()));
}

#[test]
fn signatures_are_written_in_hexadecimal() {
    assert_eq!(signature_payload("12", "body"), "v0:12:body");
    assert_eq!(check_signature(&[0x00, 0x9f, 0xa0, 0xff], "v0=009fa0ff"), Ok(()));
    assert_eq!(check_signature(&[], "v0="), Ok(()));
    assert_eq!(
        check_signature(&[0x0a], "v0=0A"),
        Err("invalid Slack signature".to_string())
    );
}

#[test]
fn requests_that_are_not_from_slack_are_refused() {
    let reply = authorize("other", &headers("1700000000", SIGNATURE), BODY).unwrap_err();
    assert_eq!(reply.status(), 401);
    match reply {
        SlackReply::Unauthorized { message } => assert_eq!(message, "invalid Slack signature"),
        _ => panic!("unexpected reply"),
    }
    assert!(authorize("secret", &headers("1700000000", SIGNATURE), BODY).is_ok());
}

#[test]
fn what_a_request_carries_counts_only_if_it_is_signed() {
    let good = headers("1700000000", SIGNATURE);
    for envelope in [
        Err("EOF".to_string()),
        Ok(SlackEnvelope::Other),
        Ok(SlackEnvelope::UrlVerification { challenge: "abc".to_string() }),
        Ok(SlackEnvelope::EventCallback { event: mention("hi") }),
    ] {
        let reply = answer_request("other", &good, BODY, envelope);
        assert_eq!(reply.status(), 401);
        match reply {
            SlackReply::Unauthorized { message } => assert_eq!(message, "invalid Slack signature"),
            _ => panic!("unexpected reply"),
        }
    }
    let envelope = Ok(SlackEnvelope::UrlVerification { challenge: "abc".to_string() });
    match answer_request("secret", &good, BODY, envelope) {
        SlackReply::Challenge { challenge } => assert_eq!(challenge, "abc"),
        _ => panic!("unexpected reply"),
    }
    assert_eq!(answer_request("secret", &good, BODY, Err("EOF".to_string())).status(), 400);
    assert_eq!(
        answer_request("secret", &HeaderMap::new(), BODY, Ok(SlackEnvelope::Other)).status(),
        401
    );
}

#[test]
fn envelopes_are_answered() {
    let reply = slack_events(Err("EOF".to_string()));
    assert_eq!(reply.status(), 400);
    match reply {
        SlackReply::BadRequest { message } => assert_eq!(message, "invalid Slack payload: EOF"),
        _ => panic!("unexpected reply"),
    }
    let reply = slack_events(Ok(SlackEnvelope::UrlVerification { challenge: "abc".to_string() }));
    assert_eq!(reply.status(), 200);
    match reply {
        SlackReply::Challenge { challenge } => assert_eq!(challenge, "abc"),
        _ => panic!("unexpected reply"),
    }
    let reply = slack_events(Ok(SlackEnvelope::EventCallback { event: mention("hi") }));
    assert_eq!(reply.status(), 200);
    match reply {
        SlackReply::Accepted { event } => assert_eq!(event.text.as_deref(), Some("hi")),
        _ => panic!("unexpected reply"),
    }
    let reply = slack_events(Ok(SlackEnvelope::Other));
    assert_eq!(reply.status(), 200);
    assert!(matches!(reply, SlackReply::Ignored));
}

fn config(channels: Option<&str>) -> Config {
    Config::from_env(Environment {
        current_dir: Ok("/work".to_string()),
        fallback_model: "m".to_string(),
        workdir: None,
        state_dir: Some("/state".to_string()),
        slack_bind: None,
        slack_bot_token: Some("token".to_string()),
        slack_signing_secret: Some("secret".to_string()),
        default_model: None,
        permission_mode: None,
        allowed_tools: None,
        allowed_channels: channels.map(|c| c.to_string()),
        system_prompt_append: None,
    })
    .expect("settings")
}

fn mention(text: &str) -> SlackEvent {
    SlackEvent {
        kind: "app_mention".to_string(),
        text: Some(text.to_string()),
        user: Some("U1".to_string()),
        bot_id: None,
        subtype: None,
        channel: Some("C1".to_string()),
        thread_ts: None,
        ts: Some("10.5".to_string()),
    }
}

fn message(text: &str) -> SlackEvent {
    SlackEvent {
        kind: "message".to_string(),
        thread_ts: Some("10.5".to_string()),
        ts: Some("11.0".to_string()),
        ..mention(text)
    }
}

#[test]
fn a_mention_starts_a_conversation() {
    let context = process_event(&config(None), &mention("<@B> fix <@U2> it"), false).expect("prompt");
    assert_eq!(context.channel, "C1");
    assert_eq!(context.thread_ts, "10.5");
    assert_eq!(context.prompt, "fix it");
    assert_eq!(context.paths.session, "/state/sessions/C1_10_5.jsonl");
    assert_eq!(context.paths.state, "/state/threads/C1_10_5.json");
    assert!(process_event(&config(None), &mention("<@B> more"), true).is_some());
}

#[test]
fn messages_count_once_there_is_a_conversation() {
    assert!(process_event(&config(None), &message("hello"), false).is_none());
    let context = process_event(&config(None), &message("ask <@U2>"), true).expect("prompt");
    assert_eq!(context.prompt, "ask <@U2>");
    assert_eq!(context.thread_ts, "10.5");
}

#[test]
fn replies_belong_to_the_conversation_of_their_thread() {
    let first = locate_thread(&config(None), &mention("x")).expect("thread");
    let reply = locate_thread(&config(None), &message("y")).expect("thread");
    assert_eq!(first.paths.session, reply.paths.session);
    assert_eq!(first.paths.state, reply.paths.state);
    assert_eq!(first.thread_ts, reply.thread_ts);
    assert_eq!(first.channel, reply.channel);
}

#[test]
fn bots_are_not_answered() {
    let mut event = mention("x");
    event.bot_id = Some("".to_string());
    assert!(process_event(&config(None), &event, true).is_none());
    let mut event = mention("x");
    event.subtype = Some("bot_message".to_string());
    assert!(process_event(&config(None), &event, true).is_none());
    event.subtype = Some("file_share".to_string());
    assert!(process_event(&config(None), &event, true).is_some());
}

#[test]
fn only_listed_channels_are_answered() {
    assert!(process_event(&config(Some("C2, C3")), &mention("x"), true).is_none());
    assert!(process_event(&config(Some("C2, C1")), &mention("x"), true).is_some());
    assert!(process_event(&config(Some(" ")), &mention("x"), true).is_some());
}

#[test]
fn events_without_a_place_or_a_prompt_are_ignored() {
    let mut event = mention("x");
    event.channel = None;
    assert!(process_event(&config(None), &event, true).is_none());
    let mut event = mention("x");
    event.ts = None;
    assert!(process_event(&config(None), &event, true).is_none());
    event.ts = Some("".to_string());
    event.thread_ts = Some("10.5".to_string());
    assert!(process_event(&config(None), &event, true).is_none());
    assert!(process_event(&config(None), &mention(" <@B> "), true).is_none());
    let mut event = mention("x");
    event.text = None;
    assert!(process_event(&config(None), &event, true).is_none());
    let mut event = mention("x");
    event.kind = "reaction_added".to_string();
    assert!(process_event(&config(None), &event, true).is_none());
}
