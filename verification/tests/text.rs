use endless_slack::names::{parse_csv_set, parse_hash_set};
use endless_slack::paths::{join_path, sanitize_path_component, thread_paths};
use endless_slack::prompt::sanitize_slack_prompt;
use endless_slack::text::is_whitespace;

#[test]
fn white_space_is_the_unicode_property() {
    for code in 0..=0x10ffffu32 {
        if let Some(c) = char::from_u32(code) {
            assert_eq!(is_whitespace(c), c.is_whitespace(), "U+{code:04X}");
        }
    }
}

#[test]
fn prompt_words_are_joined_by_single_spaces() {
    assert_eq!(sanitize_slack_prompt("  a \t b\n\u{3000}c\u{a0}", false), "a b c");
    assert_eq!(sanitize_slack_prompt("", true), "");
    assert_eq!(sanitize_slack_prompt(" \n\t ", false), "");
}

#[test]
fn prompt_drops_every_mention_and_nothing_else() {
    assert_eq!(sanitize_slack_prompt("hey <@U1> do <@U2|bob> it", true), "hey do it");
    assert_eq!(sanitize_slack_prompt("<@U1>", true), "");
    assert_eq!(sanitize_slack_prompt("<@> x", true), "x");
    assert_eq!(sanitize_slack_prompt("<@U1>: <@ > < @U> <@U1", true), "<@U1>: <@ > < @U> <@U1");
    assert_eq!(sanitize_slack_prompt("<@U1> hi", false), "<@U1> hi");
}

#[test]
fn prompt_of_a_prompt_is_the_prompt() {
    for text in ["<@U1>  /model   x ", "a  b", "", "\u{85}<@U>\u{2028}z"] {
        for remove in [true, false] {
            let once = sanitize_slack_prompt(text, remove);
            assert_eq!(sanitize_slack_prompt(&once, remove), once);
            assert_eq!(once.trim(), once);
            if remove {
                assert!(!once.split(' ').any(|w| w.starts_with("<@") && w.ends_with('>')));
            }
        }
    }
}

#[test]
fn listings_hold_what_stands_between_commas_and_white_space() {
    let names = parse_csv_set(Some(",write_file,, read_file\tglob_search ,read_file".to_string()))
        .expect("names");
    assert_eq!(names.items(), &vec!["glob_search", "read_file", "write_file"]);
    assert!(!names.contains("read"));
    assert!(!names.contains(""));
    assert!(!names.contains("Read_file"));
}

#[test]
fn listings_are_kept_in_the_order_of_texts() {
    let names = parse_csv_set(Some("b a ab é z \u{10000} \u{ffff} a".to_string())).expect("names");
    let mut sorted: Vec<String> = ["b", "a", "ab", "é", "z", "\u{10000}", "\u{ffff}"]
        .iter()
        .map(|s| s.to_string())
        .collect();
    sorted.sort();
    assert_eq!(names.items(), &sorted);
}

#[test]
fn listings_without_names_are_none() {
    assert!(parse_csv_set(None).is_none());
    assert!(parse_csv_set(Some("".to_string())).is_none());
    assert!(parse_csv_set(Some(" , ,\n".to_string())).is_none());
    assert!(parse_hash_set(None).is_none());
    assert!(parse_hash_set(Some(",".to_string())).is_none());
}

#[test]
fn channels_are_read_from_a_listing() {
    let channels = parse_hash_set(Some("C01234567,C07654321 C01234567".to_string())).expect("channels");
    assert!(channels.contains("C01234567"));
    assert!(channels.contains("C07654321"));
    assert!(!channels.contains("C0"));
    assert!(channels.clone().contains("C07654321"));
}

#[test]
fn a_joined_listing_is_read_back() {
    let words = ["x", "yy", "zzz"];
    for glue in [",", " ", ", ", "\n,\t"] {
        let names = parse_csv_set(Some(words.join(glue))).expect("names");
        assert_eq!(names.items(), &words.to_vec());
    }
}

#[test]
fn path_components_hold_safe_characters_only() {
    assert_eq!(sanitize_path_component("../é/..\\a-b"), "________a_b");
    assert_eq!(sanitize_path_component(""), "");
    assert_eq!(sanitize_path_component("azAZ09"), "azAZ09");
    let once = sanitize_path_component("1.2:3");
    assert_eq!(sanitize_path_component(&once), once);
}

#[test]
fn paths_are_joined_like_those_of_the_file_system() {
    for base in ["/tmp", "/tmp/", "", "a/b", "/"] {
        for name in ["x", "x/y", "/abs", "", ".endless/slack"] {
            let expected = std::path::Path::new(base).join(name);
            assert_eq!(join_path(base, name), expected.to_str().expect("text"), "{base} {name}");
        }
    }
}

#[test]
fn files_of_a_thread() {
    let paths = thread_paths("/state", "C01", "1700.25");
    assert_eq!(paths.session, "/state/sessions/C01_1700_25.jsonl");
    assert_eq!(paths.state, "/state/threads/C01_1700_25.json");
}

#[test]
fn files_of_a_thread_stay_in_their_directories() {
    let paths = thread_paths("/state", "/etc/passwd", "../..");
    assert_eq!(paths.session, "/state/sessions/_etc_passwd______.jsonl");
    assert_eq!(paths.state, "/state/threads/_etc_passwd______.json");
}

#[test]
fn threads_have_files_of_their_own() {
    let a = thread_paths("/s", "C1", "1.2");
    let b = thread_paths("/s", "C1", "1.3");
    let c = thread_paths("/s", "C2", "1.2");
    assert_ne!(a.session, b.session);
    assert_ne!(a.state, c.state);
    assert_ne!(a.session, a.state);
    assert_eq!(a.session, thread_paths("/s", "C1", "1.2").session);
}
