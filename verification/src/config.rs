//! The settings of the bridge, as the environment gives them.

use vstd::prelude::*;

use crate::names::{
    channels_view, listed_set, parse_csv_set, parse_hash_set, tools_view, ChannelNames, ToolNames,
};
use crate::paths::{join_path, path_joined};
use crate::text::{
    is_blank, law_nothing_to_trim, law_trimmed_is_empty_iff_blank, law_trimming_and_case,
    law_trimming_ignores_white_space_around, lower, opt_view, outcome, same, text_outcome, to_lower,
    trim, trimmed,
};

verus! {

/// Where the bridge listens unless it is told otherwise.
pub const DEFAULT_BIND_ADDR: &'static str = "127.0.0.1:8787";

/// Where below the working directory the state stands unless it is told otherwise.
pub const DEFAULT_STATE_DIR: &'static str = ".endless/slack";

/// The name of the permission mode that holds unless it is told otherwise.
pub const DEFAULT_PERMISSION_MODE: &'static str = "read-only";

/// What the tools of a conversation are allowed to do.
#[derive(Clone, Copy, Debug, PartialEq, Eq, Structural)]
pub enum PermissionMode {
    ReadOnly,
    WorkspaceWrite,
    DangerFullAccess,
}

/// The settings of the bridge.
#[derive(Clone, Debug)]
pub struct Config {
    pub bind_addr: String,
    pub workdir: String,
    pub state_dir: String,
    pub slack_bot_token: String,
    pub slack_signing_secret: String,
    pub default_model: String,
    pub permission_mode: PermissionMode,
    pub allowed_tools: Option<ToolNames>,
    pub allowed_channels: Option<ChannelNames>,
    pub system_prompt_append: Option<String>,
}

/// What the process was started with: the working directory, or the message of the error
/// that came instead of it, the model that the program falls back on, and the variables
/// that are set.
#[derive(Debug)]
pub struct Environment {
    pub current_dir: Result<String, String>,
    pub fallback_model: String,
    pub workdir: Option<String>,
    pub state_dir: Option<String>,
    pub slack_bind: Option<String>,
    pub slack_bot_token: Option<String>,
    pub slack_signing_secret: Option<String>,
    pub default_model: Option<String>,
    pub permission_mode: Option<String>,
    pub allowed_tools: Option<String>,
    pub allowed_channels: Option<String>,
    pub system_prompt_append: Option<String>,
}

/// What a [`Config`] holds.
pub struct ConfigView {
    pub bind_addr: Seq<char>,
    pub workdir: Seq<char>,
    pub state_dir: Seq<char>,
    pub slack_bot_token: Seq<char>,
    pub slack_signing_secret: Seq<char>,
    pub default_model: Seq<char>,
    pub permission_mode: PermissionMode,
    pub allowed_tools: Option<Set<Seq<char>>>,
    pub allowed_channels: Option<Set<Seq<char>>>,
    pub system_prompt_append: Option<Seq<char>>,
}

/// What an [`Environment`] holds.
pub struct EnvironmentView {
    pub current_dir: Result<Seq<char>, Seq<char>>,
    pub fallback_model: Seq<char>,
    pub workdir: Option<Seq<char>>,
    pub state_dir: Option<Seq<char>>,
    pub slack_bind: Option<Seq<char>>,
    pub slack_bot_token: Option<Seq<char>>,
    pub slack_signing_secret: Option<Seq<char>>,
    pub default_model: Option<Seq<char>>,
    pub permission_mode: Option<Seq<char>>,
    pub allowed_tools: Option<Seq<char>>,
    pub allowed_channels: Option<Seq<char>>,
    pub system_prompt_append: Option<Seq<char>>,
}

impl View for Config {
    type V = ConfigView;

    open spec fn view(&self) -> ConfigView {
        ConfigView {
            bind_addr: self.bind_addr@,
            workdir: self.workdir@,
            state_dir: self.state_dir@,
            slack_bot_token: self.slack_bot_token@,
            slack_signing_secret: self.slack_signing_secret@,
            default_model: self.default_model@,
            permission_mode: self.permission_mode,
            allowed_tools: tools_view(self.allowed_tools),
            allowed_channels: channels_view(self.allowed_channels),
            system_prompt_append: opt_view(self.system_prompt_append),
        }
    }
}

impl View for Environment {
    type V = EnvironmentView;

    open spec fn view(&self) -> EnvironmentView {
        EnvironmentView {
            current_dir: text_outcome(self.current_dir),
            fallback_model: self.fallback_model@,
            workdir: opt_view(self.workdir),
            state_dir: opt_view(self.state_dir),
            slack_bind: opt_view(self.slack_bind),
            slack_bot_token: opt_view(self.slack_bot_token),
            slack_signing_secret: opt_view(self.slack_signing_secret),
            default_model: opt_view(self.default_model),
            permission_mode: opt_view(self.permission_mode),
            allowed_tools: opt_view(self.allowed_tools),
            allowed_channels: opt_view(self.allowed_channels),
            system_prompt_append: opt_view(self.system_prompt_append),
        }
    }
}

/// The name of a permission mode.
pub open spec fn mode_name(mode: PermissionMode) -> Seq<char> {
    match mode {
        PermissionMode::ReadOnly => "read-only"@,
        PermissionMode::WorkspaceWrite => "workspace-write"@,
        PermissionMode::DangerFullAccess => "danger-full-access"@,
    }
}

/// The permission mode that a setting names, whatever the case of its letters and the
/// white space around it.
pub open spec fn mode_outcome(value: Seq<char>) -> Result<PermissionMode, Seq<char>> {
    let name = lower(trimmed(value));
    if name == mode_name(PermissionMode::ReadOnly) {
        Ok(PermissionMode::ReadOnly)
    } else if name == mode_name(PermissionMode::WorkspaceWrite) {
        Ok(PermissionMode::WorkspaceWrite)
    } else if name == mode_name(PermissionMode::DangerFullAccess) {
        Ok(PermissionMode::DangerFullAccess)
    } else {
        Err(
            "unsupported ENDLESS_PERMISSION_MODE `"@ + name
                + "`; expected read-only, workspace-write, or danger-full-access"@,
        )
    }
}

/// A value, or what stands in for one that is not there.
pub open spec fn or_default(value: Option<Seq<char>>, default: Seq<char>) -> Seq<char> {
    match value {
        Some(value) => value,
        None => default,
    }
}

/// The value of a variable that must be set to more than white space.
pub open spec fn required_outcome(key: Seq<char>, value: Option<Seq<char>>) -> Result<
    Seq<char>,
    Seq<char>,
> {
    match value {
        Some(value) if trimmed(value).len() > 0 => Ok(value),
        _ => Err("missing required environment variable "@ + key),
    }
}

/// The settings that an environment gives, or the first thing that is wrong with it.
pub open spec fn config_outcome(env: EnvironmentView) -> Result<ConfigView, Seq<char>> {
    match (
        env.current_dir,
        required_outcome("SLACK_BOT_TOKEN"@, env.slack_bot_token),
        required_outcome("SLACK_SIGNING_SECRET"@, env.slack_signing_secret),
        mode_outcome(or_default(env.permission_mode, DEFAULT_PERMISSION_MODE@)),
    ) {
        (Err(message), _, _, _) => Err(message),
        (_, Err(message), _, _) => Err(message),
        (_, _, Err(message), _) => Err(message),
        (_, _, _, Err(message)) => Err(message),
        (Ok(current_dir), Ok(bot_token), Ok(signing_secret), Ok(mode)) => {
            let workdir = or_default(env.workdir, current_dir);
            Ok(
                ConfigView {
                    bind_addr: or_default(env.slack_bind, DEFAULT_BIND_ADDR@),
                    workdir,
                    state_dir: or_default(env.state_dir, path_joined(workdir, DEFAULT_STATE_DIR@)),
                    slack_bot_token: bot_token,
                    slack_signing_secret: signing_secret,
                    default_model: or_default(env.default_model, env.fallback_model),
                    permission_mode: mode,
                    allowed_tools: listed_set(env.allowed_tools),
                    allowed_channels: listed_set(env.allowed_channels),
                    system_prompt_append: env.system_prompt_append,
                },
            )
        },
    }
}

impl PermissionMode {
    /// The name of the mode.
    pub fn as_str(self) -> (r: &'static str)
        ensures
            r@ == mode_name(self),
    {
        match self {
            PermissionMode::ReadOnly => "read-only",
            PermissionMode::WorkspaceWrite => "workspace-write",
            PermissionMode::DangerFullAccess => "danger-full-access",
        }
    }
}

/// The permission mode that a setting names, whatever the case of its letters and the
/// white space around it.
pub fn parse_permission_mode(value: &str) -> (r: Result<PermissionMode, String>)
    ensures
        outcome(r) == mode_outcome(value@),
{
    let name = to_lower(trim(value).as_str());
    if same(name.as_str(), "read-only") {
        Ok(PermissionMode::ReadOnly)
    } else if same(name.as_str(), "workspace-write") {
        Ok(PermissionMode::WorkspaceWrite)
    } else if same(name.as_str(), "danger-full-access") {
        Ok(PermissionMode::DangerFullAccess)
    } else {
        Err(
            "unsupported ENDLESS_PERMISSION_MODE `".to_string().concat(name.as_str()).concat(
                "`; expected read-only, workspace-write, or danger-full-access",
            ),
        )
    }
}

/// The value of a variable that must be set to more than white space.
pub fn read_required_env(key: &str, value: Option<String>) -> (r: Result<String, String>)
    ensures
        text_outcome(r) == required_outcome(key@, opt_view(value)),
{
    if let Some(value) = value {
        if !trim(value.as_str()).as_str().is_empty() {
            return Ok(value);
        }
    }
    Err("missing required environment variable ".to_string().concat(key))
}

/// A value, or what stands in for one that is not there.
fn value_or(value: Option<String>, default: &str) -> (r: String)
    ensures
        r@ == or_default(opt_view(value), default@),
{
    match value {
        Some(value) => value,
        None => default.to_string(),
    }
}

/// An error of the standard library.
#[verifier::external_type_specification]
#[verifier::external_body]
pub struct ExIoError(std::io::Error);

/// The message that an error of the standard library prints.
pub uninterp spec fn io_error_message(error: std::io::Error) -> Seq<char>;

/// Whether the kind of an error of the standard library is `InvalidInput`.
pub uninterp spec fn io_error_is_invalid_input(error: std::io::Error) -> bool;

/// `std::io::Error::new`, for the kind `InvalidInput`: an error of that kind, which prints
/// the message.
#[verifier::external_body]
fn invalid_input(message: String) -> (r: std::io::Error)
    ensures
        io_error_message(r) == message@,
        io_error_is_invalid_input(r),
{
    std::io::Error::new(std::io::ErrorKind::InvalidInput, message)
}

/// A message about the settings, as an error that a program can end with.
pub fn io_error(message: String) -> (r: std::io::Error)
    ensures
        io_error_message(r) == message@,
        io_error_is_invalid_input(r),
{
    invalid_input(message)
}

impl Config {
    /// The settings that an environment gives, or the first thing that is wrong with it.
    pub fn from_env(env: Environment) -> (r: Result<Config, String>)
        ensures
            match r {
                Ok(config) => config_outcome(env@) == Ok::<ConfigView, Seq<char>>(config@),
                Err(message) => config_outcome(env@) == Err::<ConfigView, Seq<char>>(message@),
            },
    {
        let current_dir = match env.current_dir {
            Ok(current_dir) => current_dir,
            Err(message) => return Err(message),
        };
        let workdir = value_or(env.workdir, current_dir.as_str());
        let state_dir = value_or(
            env.state_dir,
            join_path(workdir.as_str(), DEFAULT_STATE_DIR).as_str(),
        );
        let slack_bot_token = match read_required_env("SLACK_BOT_TOKEN", env.slack_bot_token) {
            Ok(token) => token,
            Err(message) => return Err(message),
        };
        let slack_signing_secret = match read_required_env(
            "SLACK_SIGNING_SECRET",
            env.slack_signing_secret,
        ) {
            Ok(secret) => secret,
            Err(message) => return Err(message),
        };
        let permission_mode = match parse_permission_mode(
            value_or(env.permission_mode, DEFAULT_PERMISSION_MODE).as_str(),
        ) {
            Ok(mode) => mode,
            Err(message) => return Err(message),
        };
        Ok(
            Config {
                bind_addr: value_or(env.slack_bind, DEFAULT_BIND_ADDR),
                workdir,
                state_dir,
                slack_bot_token,
                slack_signing_secret,
                default_model: value_or(env.default_model, env.fallback_model.as_str()),
                permission_mode,
                allowed_tools: parse_csv_set(env.allowed_tools),
                allowed_channels: parse_hash_set(env.allowed_channels),
                system_prompt_append: env.system_prompt_append,
            },
        )
    }
}

/// A permission mode is read back from its name.
pub proof fn law_mode_is_read_back_from_its_name(mode: PermissionMode)
    ensures
        mode_outcome(mode_name(mode)) == Ok::<PermissionMode, Seq<char>>(mode),
{
    reveal_strlit("read-only");
    reveal_strlit("workspace-write");
    reveal_strlit("danger-full-access");
    let name = mode_name(mode);
    law_nothing_to_trim(name);
    assert(lower(name) =~= name);
    assert("read-only"@[0] == 'r' && "workspace-write"@[0] == 'w' && "danger-full-access"@[0]
        == 'd');
}

/// White space around the name of a permission mode makes no difference, whether or not
/// there is such a mode.
pub proof fn law_mode_ignores_white_space_around(
    before: Seq<char>,
    value: Seq<char>,
    after: Seq<char>,
)
    requires
        is_blank(before),
        is_blank(after),
    ensures
        mode_outcome(before + value + after) == mode_outcome(value),
{
    law_trimming_ignores_white_space_around(before, value, after);
}

/// The case of the letters in the name of a permission mode makes no difference, whether
/// or not there is such a mode.
pub proof fn law_mode_ignores_case(value: Seq<char>, other: Seq<char>)
    requires
        lower(value) == lower(other),
    ensures
        mode_outcome(value) == mode_outcome(other),
{
    law_trimming_and_case(value);
    law_trimming_and_case(other);
}

/// Settings come about only with a token and a secret that are not blank.
pub proof fn law_settings_have_credentials(env: EnvironmentView)
    ensures
        config_outcome(env) is Ok ==> {
            &&& env.slack_bot_token == Some(config_outcome(env)->Ok_0.slack_bot_token)
            &&& env.slack_signing_secret == Some(config_outcome(env)->Ok_0.slack_signing_secret)
            &&& !is_blank(config_outcome(env)->Ok_0.slack_bot_token)
            &&& !is_blank(config_outcome(env)->Ok_0.slack_signing_secret)
        },
{
    if let Ok(config) = config_outcome(env) {
        law_trimmed_is_empty_iff_blank(config.slack_bot_token);
        law_trimmed_is_empty_iff_blank(config.slack_signing_secret);
    }
}

/// Where the working directory is known, the program has a model to fall back on and no
/// permission mode is named, the token and the secret are enough: no other variable has to
/// be set, tools may only read, and threads start with the model of the program unless a
/// variable names another.
pub proof fn law_credentials_are_enough(env: EnvironmentView)
    requires
        env.current_dir is Ok,
        env.slack_bot_token is Some && !is_blank(env.slack_bot_token->0),
        env.slack_signing_secret is Some && !is_blank(env.slack_signing_secret->0),
        env.permission_mode is None,
    ensures
        config_outcome(env) is Ok,
        config_outcome(env)->Ok_0.permission_mode == PermissionMode::ReadOnly,
        config_outcome(env)->Ok_0.default_model == or_default(
            env.default_model,
            env.fallback_model,
        ),
{
    law_trimmed_is_empty_iff_blank(env.slack_bot_token->0);
    law_trimmed_is_empty_iff_blank(env.slack_signing_secret->0);
    law_mode_is_read_back_from_its_name(PermissionMode::ReadOnly);
}

/// The permission modes go by these names.
pub proof fn law_names_of_the_modes()
    ensures
        mode_name(PermissionMode::ReadOnly) == "read-only"@,
        mode_name(PermissionMode::WorkspaceWrite) == "workspace-write"@,
        mode_name(PermissionMode::DangerFullAccess) == "danger-full-access"@,
{
}

/// A setting names a permission mode if and only if it is, in lower case and without the
/// white space around it, the name of that mode; any other is reported in that form.
pub proof fn law_settings_name_one_mode(value: Seq<char>, mode: PermissionMode)
    ensures
        ({
            let name = lower(trimmed(value));
            let read = mode_outcome(value);
            &&& read == Ok::<PermissionMode, Seq<char>>(mode) <==> name == mode_name(mode)
            &&& read is Err ==> read->Err_0 == "unsupported ENDLESS_PERMISSION_MODE `"@ + name
                + "`; expected read-only, workspace-write, or danger-full-access"@
        }),
{
    reveal_strlit("read-only");
    reveal_strlit("workspace-write");
    reveal_strlit("danger-full-access");
    assert("read-only"@[0] == 'r' && "workspace-write"@[0] == 'w' && "danger-full-access"@[0]
        == 'd');
}

/// Where there are settings, each of them is what the environment says or, where it says
/// nothing, what holds by default.
pub proof fn law_each_setting_has_its_variable(env: EnvironmentView)
    requires
        config_outcome(env) is Ok,
    ensures
        ({
            let config = config_outcome(env)->Ok_0;
            &&& env.current_dir is Ok
            &&& env.slack_bind is Some ==> config.bind_addr == env.slack_bind->0
            &&& env.slack_bind is None ==> config.bind_addr == "127.0.0.1:8787"@
            &&& env.workdir is Some ==> config.workdir == env.workdir->0
            &&& env.workdir is None ==> config.workdir == env.current_dir->Ok_0
            &&& env.state_dir is Some ==> config.state_dir == env.state_dir->0
            &&& env.state_dir is None ==> config.state_dir == path_joined(
                config.workdir,
                ".endless/slack"@,
            )
            &&& env.slack_bot_token == Some(config.slack_bot_token)
            &&& env.slack_signing_secret == Some(config.slack_signing_secret)
            &&& env.default_model is Some ==> config.default_model == env.default_model->0
            &&& env.default_model is None ==> config.default_model == env.fallback_model
            &&& env.permission_mode is Some ==> mode_outcome(env.permission_mode->0)
                == Ok::<PermissionMode, Seq<char>>(config.permission_mode)
            &&& env.permission_mode is None ==> config.permission_mode is ReadOnly
            &&& config.allowed_tools == listed_set(env.allowed_tools)
            &&& config.allowed_channels == listed_set(env.allowed_channels)
            &&& config.system_prompt_append == env.system_prompt_append
        }),
{
    law_mode_is_read_back_from_its_name(PermissionMode::ReadOnly);
}

/// There are settings if and only if the working directory is known, neither the token nor
/// the secret is blank or missing, and the permission mode, if one is named, is one that
/// there is. Of what is wrong, the first in that order is reported.
pub proof fn law_the_first_thing_wrong_is_reported(env: EnvironmentView)
    ensures
        ({
            let read = config_outcome(env);
            let token = env.slack_bot_token is Some && !is_blank(env.slack_bot_token->0);
            let secret = env.slack_signing_secret is Some && !is_blank(
                env.slack_signing_secret->0,
            );
            let mode = env.permission_mode is Some ==> mode_outcome(env.permission_mode->0) is Ok;
            &&& read is Ok <==> env.current_dir is Ok && token && secret && mode
            &&& env.current_dir matches Err(message) ==> read == Err::<ConfigView, Seq<char>>(
                message,
            )
            &&& env.current_dir is Ok && !token ==> read == Err::<ConfigView, Seq<char>>(
                "missing required environment variable "@ + "SLACK_BOT_TOKEN"@,
            )
            &&& env.current_dir is Ok && token && !secret ==> read == Err::<ConfigView, Seq<char>>(
                "missing required environment variable "@ + "SLACK_SIGNING_SECRET"@,
            )
            &&& env.current_dir is Ok && token && secret && !mode ==> read == Err::<
                ConfigView,
                Seq<char>,
            >(mode_outcome(env.permission_mode->0)->Err_0)
        }),
{
    law_mode_is_read_back_from_its_name(PermissionMode::ReadOnly);
    if let Some(token) = env.slack_bot_token {
        law_trimmed_is_empty_iff_blank(token);
    }
    if let Some(secret) = env.slack_signing_secret {
        law_trimmed_is_empty_iff_blank(secret);
    }
}

/// A variable that must be set is taken as it stands, with the white space around it, unless
/// it is blank or missing, which is reported with its name.
pub proof fn law_required_variables_are_taken_as_they_stand(
    key: Seq<char>,
    value: Option<Seq<char>>,
)
    ensures
        value is Some && !is_blank(value->0) ==> required_outcome(key, value) == Ok::<
            Seq<char>,
            Seq<char>,
        >(value->0),
        value is None || is_blank(value->0) ==> required_outcome(key, value) == Err::<
            Seq<char>,
            Seq<char>,
        >("missing required environment variable "@ + key),
{
    if let Some(value) = value {
        law_trimmed_is_empty_iff_blank(value);
    }
}

/// Settings and environments are taken for what they hold, field by field.
pub proof fn law_settings_are_what_they_hold(config: Config, env: Environment)
    ensures
        config@.bind_addr == config.bind_addr@,
        config@.workdir == config.workdir@,
        config@.state_dir == config.state_dir@,
        config@.slack_bot_token == config.slack_bot_token@,
        config@.slack_signing_secret == config.slack_signing_secret@,
        config@.default_model == config.default_model@,
        config@.permission_mode == config.permission_mode,
        config@.allowed_tools == tools_view(config.allowed_tools),
        config@.allowed_channels == channels_view(config.allowed_channels),
        config@.system_prompt_append == opt_view(config.system_prompt_append),
        env@.current_dir == text_outcome(env.current_dir),
        env@.fallback_model == env.fallback_model@,
        env@.workdir == opt_view(env.workdir),
        env@.state_dir == opt_view(env.state_dir),
        env@.slack_bind == opt_view(env.slack_bind),
        env@.slack_bot_token == opt_view(env.slack_bot_token),
        env@.slack_signing_secret == opt_view(env.slack_signing_secret),
        env@.default_model == opt_view(env.default_model),
        env@.permission_mode == opt_view(env.permission_mode),
        env@.allowed_tools == opt_view(env.allowed_tools),
        env@.allowed_channels == opt_view(env.allowed_channels),
        env@.system_prompt_append == opt_view(env.system_prompt_append),
{
}

} // verus!
