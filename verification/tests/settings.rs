use endless_slack::config::{
    io_error, parse_permission_mode, read_required_env, Config, Environment, PermissionMode,
};

fn environment() -> Environment {
    Environment {
        current_dir: Ok("/work".to_string()),
        fallback_model: "some-model".to_string(),
        workdir: None,
        state_dir: None,
        slack_bind: None,
        slack_bot_token: Some("token".to_string()),
        slack_signing_secret: Some("secret".to_string()),
        default_model: None,
        permission_mode: None,
        allowed_tools: None,
        allowed_channels: None,
        system_prompt_append: None,
    }
}

#[test]
fn defaults_hold_where_nothing_is_set() {
    let config = Config::from_env(environment()).expect("settings");
    assert_eq!(config.bind_addr, "127.0.0.1:8787");
    assert_eq!(config.workdir, "/work");
    assert_eq!(config.state_dir, "/work/.endless/slack");
    assert_eq!(config.slack_bot_token, "token");
    assert_eq!(config.slack_signing_secret, "secret");
    assert_eq!(config.default_model, "some-model");
    assert_eq!(config.permission_mode, PermissionMode::ReadOnly);
    assert!(config.allowed_tools.is_none());
    assert!(config.allowed_channels.is_none());
    assert!(config.system_prompt_append.is_none());
}

#[test]
fn settings_are_taken_over() {
    let mut env = environment();
    env.workdir = Some("/repo".to_string());
    env.slack_bind = Some("0.0.0.0:1".to_string());
    env.default_model = Some("grok-3".to_string());
    env.permission_mode = Some(" Danger-Full-Access\n".to_string());
    env.allowed_tools = Some("read_file".to_string());
    env.allowed_channels = Some("C1".to_string());
    env.system_prompt_append = Some("Be brief.".to_string());
    let config = Config::from_env(env).expect("settings");
    assert_eq!(config.workdir, "/repo");
    assert_eq!(config.state_dir, "/repo/.endless/slack");
    assert_eq!(config.bind_addr, "0.0.0.0:1");
    assert_eq!(config.default_model, "grok-3");
    assert_eq!(config.permission_mode, PermissionMode::DangerFullAccess);
    assert!(config.allowed_tools.expect("tools").contains("read_file"));
    assert!(config.allowed_channels.expect("channels").contains("C1"));
    assert_eq!(config.system_prompt_append.as_deref(), Some("Be brief."));

    let mut env = environment();
    env.state_dir = Some("/elsewhere".to_string());
    assert_eq!(Config::from_env(env).expect("settings").state_dir, "/elsewhere");
}

#[test]
fn the_first_thing_wrong_is_reported() {
    let mut env = environment();
    env.permission_mode = Some("root".to_string());
    assert_eq!(
        Config::from_env(env).unwrap_err(),
        "unsupported ENDLESS_PERMISSION_MODE `root`; expected read-only, workspace-write, or danger-full-access"
    );

    let mut env = environment();
    env.permission_mode = Some("root".to_string());
    env.slack_signing_secret = None;
    assert_eq!(
        Config::from_env(env).unwrap_err(),
        "missing required environment variable SLACK_SIGNING_SECRET"
    );

    let mut env = environment();
    env.slack_signing_secret = None;
    env.slack_bot_token = Some(" \t".to_string());
    assert_eq!(
        Config::from_env(env).unwrap_err(),
        "missing required environment variable SLACK_BOT_TOKEN"
    );

    let mut env = environment();
    env.current_dir = Err("gone".to_string());
    env.workdir = Some("/repo".to_string());
    env.slack_bot_token = None;
    assert_eq!(Config::from_env(env).unwrap_err(), "gone");
}

#[test]
fn required_variables_keep_the_white_space_around_them() {
    assert_eq!(read_required_env("K", Some(" v ".to_string())), Ok(" v ".to_string()));
    assert_eq!(
        read_required_env("K", Some("".to_string())),
        Err("missing required environment variable K".to_string())
    );
    assert_eq!(
        read_required_env("K", None),
        Err("missing required environment variable K".to_string())
    );
}

#[test]
fn permission_modes_are_read_back_from_their_names() {
    for mode in [
        PermissionMode::ReadOnly,
        PermissionMode::WorkspaceWrite,
        PermissionMode::DangerFullAccess,
    ] {
        assert_eq!(parse_permission_mode(mode.as_str()), Ok(mode));
        assert_eq!(parse_permission_mode(&mode.as_str().to_uppercase()), Ok(mode));
        assert_eq!(parse_permission_mode(&format!("\u{2003}{}\r\n", mode.as_str())), Ok(mode));
    }
}

#[test]
fn unknown_permission_modes_are_named_in_lower_case() {
    assert_eq!(
        parse_permission_mode(" ReadOnly "),
        Err("unsupported ENDLESS_PERMISSION_MODE `readonly`; expected read-only, workspace-write, or danger-full-access".to_string())
    );
    assert_eq!(
        parse_permission_mode("É"),
        Err("unsupported ENDLESS_PERMISSION_MODE `É`; expected read-only, workspace-write, or danger-full-access".to_string())
    );
}

#[test]
fn messages_become_errors_about_input() {
    let error = io_error("no token".to_string());
    assert_eq!(error.kind(), std::io::ErrorKind::InvalidInput);
    assert_eq!(error.to_string(), "no token");
}
