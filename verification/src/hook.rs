//! What runs after a token was issued or refused.
//!
//! A hook can spawn a command with the outcome in its environment, and show
//! a desktop notification. Nothing here spawns or shows anything: the
//! functions say what to spawn and what to show.

use vstd::prelude::*;
use vstd::string::*;

use crate::access_token::{
    token_error_name, TokenError, TokenErrorView, TokenSuccess, TokenSuccessView,
};
use crate::duration::{announced_expiry, expiry_text};
use crate::notify::{rendered, Notification, NotifyHook, Variables};
use crate::text::{decimal, decimal_text, text_view};

verus! {

/// The hook of one outcome.
#[derive(Debug)]
pub struct Hook {
    /// Whether the account names a command to spawn.
    pub command: bool,
    /// The notification to show, if the account asks for one.
    pub notify: Option<NotifyHook>,
}

/// The hooks of one operation: one for success and one for failure.
#[derive(Debug)]
pub struct Hooks {
    pub success: Hook,
    pub error: Hook,
}

impl Default for Hook {
    fn default() -> (hook: Hook)
        ensures
            !hook.command,
            hook.notify is None,
    {
        Hook { command: false, notify: None }
    }
}

impl Default for Hooks {
    fn default() -> (hooks: Hooks)
        ensures
            !hooks.success.command,
            hooks.success.notify is None,
            !hooks.error.command,
            hooks.error.notify is None,
    {
        Hooks { success: Hook::default(), error: Hook::default() }
    }
}

/// How to spawn the command of a hook. The environment may hold tokens, so
/// the type has no formatting impl.
pub struct CommandHook {
    /// Whether `~` and variables are expanded in the program and its
    /// arguments. A hook always asks for it.
    pub expand: bool,
    /// The variables to add to the environment of the command.
    pub envs: Vec<(String, String)>,
}

/// What a hook asks for.
pub struct HookPlan {
    /// The command to spawn, if any.
    pub command: Option<CommandHook>,
    /// The notification to show, if any.
    pub notification: Option<Notification>,
}

/// One entry where there is a value, none where there is not.
pub open spec fn optional_env(key: Seq<char>, value: Option<Seq<char>>) -> Seq<
    (Seq<char>, Seq<char>),
> {
    match value {
        Some(value) => seq![(key, value)],
        None => seq![],
    }
}

/// The environment that tells a command of an issued token: the token and
/// its type, and the lifetime in seconds, the refresh token and the scope as
/// far as the provider sent them.
pub open spec fn success_envs(token: TokenSuccessView) -> Seq<(Seq<char>, Seq<char>)> {
    seq![("ACCESS_TOKEN"@, token.access_token), ("TOKEN_TYPE"@, token.token_type)]
        + optional_env(
        "EXPIRES_IN"@,
        match token.expires_in {
            Some(secs) => Some(decimal(secs as nat)),
            None => None,
        },
    ) + optional_env("REFRESH_TOKEN"@, token.refresh_token) + optional_env("SCOPE"@, token.scope)
}

/// The environment that tells a command of a refused token: the name of the
/// error code, and the description and the URI as far as the provider sent
/// them.
pub open spec fn error_envs(error: TokenErrorView) -> Seq<(Seq<char>, Seq<char>)> {
    seq![("ERROR"@, token_error_name(error.error))] + optional_env(
        "ERROR_DESCRIPTION"@,
        error.error_description,
    ) + optional_env("ERROR_URI"@, error.error_uri)
}

/// The variables that a notification of an issued token can name, given
/// the lifetime in words: the lifetime and the type of the token.
pub open spec fn success_variables_with(expiry: Seq<char>, token_type: Seq<char>) -> Seq<
    (Seq<char>, Option<Seq<char>>),
> {
    seq![("EXPIRES_IN"@, Some(expiry)), ("TOKEN_TYPE"@, Some(token_type))]
}

/// The variables that a notification of an issued token can name: the
/// lifetime in words, `unknown` without one, and the type of the token.
pub open spec fn success_variables(token: TokenSuccessView) -> Seq<
    (Seq<char>, Option<Seq<char>>),
> {
    success_variables_with(
        match token.expires_in {
            Some(secs) => announced_expiry(secs),
            None => "unknown"@,
        },
        token.token_type,
    )
}

/// The command that a hook asks for, given the environment to add: one
/// that expands its program and arguments, where the hook names a command.
pub open spec fn is_command_hook(
    command: Option<CommandHook>,
    hook: Hook,
    envs: Seq<(Seq<char>, Seq<char>)>,
) -> bool {
    match command {
        Some(command) => hook.command && command.expand && command.envs.deep_view() == envs,
        None => !hook.command,
    }
}

/// The variables that a notification of a refused token can name: the name
/// of the error code, the description and the URI. The last two have no
/// value where the provider sent none.
pub open spec fn error_variables(error: TokenErrorView) -> Seq<(Seq<char>, Option<Seq<char>>)> {
    seq![
        ("ERROR"@, Some(token_error_name(error.error))),
        ("ERROR_DESCRIPTION"@, error.error_description),
        ("ERROR_URI"@, error.error_uri),
    ]
}

/// Whether `plan` is what `hook` asks for, given the environment of its
/// command and the variables of its notification.
pub open spec fn is_hook_plan(
    plan: HookPlan,
    hook: Hook,
    envs: Seq<(Seq<char>, Seq<char>)>,
    home: Option<Seq<char>>,
    variables: Seq<(Seq<char>, Option<Seq<char>>)>,
    environment: Seq<(Seq<char>, Seq<char>)>,
) -> bool {
    &&& is_command_hook(plan.command, hook, envs)
    &&& match hook.notify {
        Some(templates) => {
            &&& plan.notification matches Some(shown)
            &&& shown.summary@ == rendered(templates.summary@, home, variables, environment)
            &&& shown.body@ == rendered(templates.body@, home, variables, environment)
        },
        None => plan.notification is None,
    }
}

fn push_env(envs: &mut Vec<(String, String)>, key: &str, value: &str)
    ensures
        final(envs).deep_view() == old(envs).deep_view().push((key@, value@)),
{
    envs.push((String::from_str(key), String::from_str(value)));
}

fn push_variable(variables: &mut Vec<(String, Option<String>)>, key: &str, value: Option<String>)
    ensures
        final(variables).deep_view() == old(variables).deep_view().push((key@, text_view(value))),
{
    variables.push((String::from_str(key), value));
}

fn copy_text(text: &Option<String>) -> (copy: Option<String>)
    ensures
        text_view(copy) == text_view(*text),
{
    match text {
        Some(text) => Some(text.clone()),
        None => None,
    }
}

impl Hook {
    /// The command that the hook asks for, with `envs` added to its
    /// environment.
    pub fn command_hook(&self, envs: Vec<(String, String)>) -> (command: Option<CommandHook>)
        ensures
            is_command_hook(command, *self, envs.deep_view()),
    {
        if self.command {
            Some(CommandHook { expand: true, envs })
        } else {
            None
        }
    }

    fn plan(
        &self,
        envs: Vec<(String, String)>,
        home: &Option<String>,
        variables: &Variables,
    ) -> (plan: HookPlan)
        ensures
            is_hook_plan(
                plan,
                *self,
                envs.deep_view(),
                text_view(*home),
                variables.synthesized.deep_view(),
                variables.environment.deep_view(),
            ),
    {
        let command = self.command_hook(envs);
        let notification = match &self.notify {
            Some(templates) => Some(templates.notification(home, variables)),
            None => None,
        };
        HookPlan { command, notification }
    }
}

impl Hooks {
    /// The environment that tells a command of the issued token `token`.
    pub fn success_envs(token: &TokenSuccess) -> (envs: Vec<(String, String)>)
        ensures
            envs.deep_view() == success_envs(token@),
    {
        let mut envs: Vec<(String, String)> = Vec::new();
        push_env(&mut envs, "ACCESS_TOKEN", token.access_token.expose());
        push_env(&mut envs, "TOKEN_TYPE", token.token_type.as_str());
        match token.expires_in {
            Some(secs) => {
                let digits = decimal_text(secs);
                push_env(&mut envs, "EXPIRES_IN", digits.as_str());
            },
            None => {},
        }
        match &token.refresh_token {
            Some(refresh_token) => {
                push_env(&mut envs, "REFRESH_TOKEN", refresh_token.expose());
            },
            None => {},
        }
        match &token.scope {
            Some(scope) => {
                push_env(&mut envs, "SCOPE", scope.as_str());
            },
            None => {},
        }
        envs
    }

    /// The environment that tells a command of the refused token `error`.
    pub fn error_envs(error: &TokenError) -> (envs: Vec<(String, String)>)
        ensures
            envs.deep_view() == error_envs(error@),
    {
        let mut envs: Vec<(String, String)> = Vec::new();
        push_env(&mut envs, "ERROR", error.error.name());
        match &error.error_description {
            Some(description) => {
                push_env(&mut envs, "ERROR_DESCRIPTION", description.as_str());
            },
            None => {},
        }
        match &error.error_uri {
            Some(uri) => {
                push_env(&mut envs, "ERROR_URI", uri.as_str());
            },
            None => {},
        }
        envs
    }

    /// The variables that a notification of an issued token can name, given
    /// the lifetime in words.
    pub fn success_variables(expiry: String, token_type: &str) -> (variables: Vec<
        (String, Option<String>),
    >)
        ensures
            variables.deep_view() == success_variables_with(expiry@, token_type@),
    {
        let mut variables: Vec<(String, Option<String>)> = Vec::new();
        push_variable(&mut variables, "EXPIRES_IN", Some(expiry));
        push_variable(&mut variables, "TOKEN_TYPE", Some(String::from_str(token_type)));
        variables
    }

    /// The variables that a notification of a refused token can name.
    pub fn error_variables(error: &TokenError) -> (variables: Vec<(String, Option<String>)>)
        ensures
            variables.deep_view() == error_variables(error@),
    {
        let mut variables: Vec<(String, Option<String>)> = Vec::new();
        push_variable(&mut variables, "ERROR", Some(String::from_str(error.error.name())));
        push_variable(&mut variables, "ERROR_DESCRIPTION", copy_text(&error.error_description));
        push_variable(&mut variables, "ERROR_URI", copy_text(&error.error_uri));
        variables
    }

    /// What the success hook asks for after `token` was issued.
    ///
    /// `home` is the home directory of the user and `environment` the
    /// environment of the process: the templates of the notification can
    /// name both.
    pub fn execute_success(
        &self,
        token: &TokenSuccess,
        home: &Option<String>,
        environment: &Vec<(String, String)>,
    ) -> (plan: HookPlan)
        ensures
            is_hook_plan(
                plan,
                self.success,
                success_envs(token@),
                text_view(*home),
                success_variables(token@),
                environment.deep_view(),
            ),
    {
        let envs = Hooks::success_envs(token);
        let expiry = match token.expires_in {
            Some(secs) => expiry_text(secs),
            None => String::from_str("unknown"),
        };
        let synthesized = Hooks::success_variables(expiry, token.token_type.as_str());
        let variables = Variables { synthesized, environment };
        self.success.plan(envs, home, &variables)
    }

    /// What the error hook asks for after the provider refused with
    /// `error`.
    pub fn execute_error(
        &self,
        error: &TokenError,
        home: &Option<String>,
        environment: &Vec<(String, String)>,
    ) -> (plan: HookPlan)
        ensures
            is_hook_plan(
                plan,
                self.error,
                error_envs(error@),
                text_view(*home),
                error_variables(error@),
                environment.deep_view(),
            ),
    {
        let envs = Hooks::error_envs(error);
        let synthesized = Hooks::error_variables(error);
        let variables = Variables { synthesized, environment };
        self.error.plan(envs, home, &variables)
    }
}

} // verus!
