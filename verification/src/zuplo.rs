use vstd::prelude::*;
use vstd::string::*;
use vstd::utf8::*;

use crate::command::{
    push_arg, string_from_utf8, string_from_utf8_lossy, utf8_error_text, utf8_lossy,
    CommandOutcome,
};
use crate::error::{text_result_view, ErrorView, SecretSpecError};
use crate::text::{contains, contains_seq, str_eq, trim_leading_slashes, trim_start_slashes};
use crate::url_parts::{opt_text, parse_url, url_parts_of, UrlParts, UrlPartsView};

verus! {

// ---------------------------------------------------------------------------
// Configuration
// ---------------------------------------------------------------------------

/// Configuration for the Zuplo provider: an optional project and an optional
/// branch; where they are missing, the Zuplo CLI uses its current context.
#[derive(Debug, Clone, PartialEq, Eq)]
pub struct ZuploConfig {
    /// The Zuplo project name.
    pub project: Option<String>,
    /// The branch for environment-specific variables.
    pub branch: Option<String>,
}

/// The value of a [`ZuploConfig`].
pub struct ZuploConfigView {
    pub project: Option<Seq<char>>,
    pub branch: Option<Seq<char>>,
}

impl View for ZuploConfig {
    type V = ZuploConfigView;

    open spec fn view(&self) -> ZuploConfigView {
        ZuploConfigView { project: opt_text(self.project), branch: opt_text(self.branch) }
    }
}

impl Default for ZuploConfig {
    /// No project and no branch: the CLI's current context.
    fn default() -> (c: Self)
        ensures
            c@.project is None,
            c@.branch is None,
    {
        ZuploConfig { project: None, branch: None }
    }
}

/// The message for a URI whose scheme is not `zuplo`.
pub open spec fn zuplo_invalid_scheme_message(scheme: Seq<char>) -> Seq<char> {
    "Invalid scheme '"@ + scheme + "' for Zuplo provider. Use 'zuplo'"@
}

/// The configuration that a provider URL describes, or the error for it.
/// Format: `zuplo://[project]/[branch]`; an empty host or `localhost` names no
/// project (and then no branch either).
pub open spec fn zuplo_config_from(url: UrlPartsView) -> Result<ZuploConfigView, ErrorView> {
    if url.scheme != "zuplo"@ {
        Err(ErrorView::ProviderOperationFailed(zuplo_invalid_scheme_message(url.scheme)))
    } else {
        Ok(
            match url.host {
                Some(h) => if h.len() > 0 && h != "localhost"@ {
                    let p = trim_leading_slashes(url.path);
                    ZuploConfigView {
                        project: Some(h),
                        branch: if p.len() > 0 {
                            Some(p)
                        } else {
                            None
                        },
                    }
                } else {
                    ZuploConfigView { project: None, branch: None }
                },
                None => ZuploConfigView { project: None, branch: None },
            },
        )
    }
}

/// The value of a configuration result.
pub open spec fn zuplo_config_result_view(r: Result<ZuploConfig, SecretSpecError>) -> Result<
    ZuploConfigView,
    ErrorView,
> {
    match r {
        Ok(c) => Ok(c@),
        Err(e) => Err(e@),
    }
}

impl ZuploConfig {
    /// Reads the configuration from the parts of a provider URL.
    pub fn try_from(url: &UrlParts) -> (r: Result<ZuploConfig, SecretSpecError>)
        ensures
            zuplo_config_result_view(r) == zuplo_config_from(url@),
    {
        let scheme = url.scheme.as_str();
        if !str_eq(scheme, "zuplo") {
            let mut msg = String::from_str("Invalid scheme '");
            msg.append(scheme);
            msg.append("' for Zuplo provider. Use 'zuplo'");
            return Err(SecretSpecError::ProviderOperationFailed(msg));
        }
        let mut config = ZuploConfig::default();
        if let Some(host) = &url.host {
            if !host.as_str().is_empty() && !str_eq(host.as_str(), "localhost") {
                config.project = Some(host.clone());
                let path = trim_start_slashes(url.path.as_str());
                if !path.as_str().is_empty() {
                    config.branch = Some(path);
                }
            }
        }
        Ok(config)
    }

    /// Parses a provider URI (such as `zuplo://my-api/main`) and reads the
    /// configuration from it.
    pub fn from_uri(uri: &str) -> (r: Result<ZuploConfig, SecretSpecError>)
        ensures
            match url_parts_of(uri@) {
                None => zuplo_config_result_view(r) == Err::<ZuploConfigView, ErrorView>(
                    ErrorView::InvalidUrl(uri@),
                ),
                Some(p) => zuplo_config_result_view(r) == zuplo_config_from(p),
            },
    {
        match parse_url(uri) {
            Ok(parts) => ZuploConfig::try_from(&parts),
            Err(_) => Err(SecretSpecError::InvalidUrl(String::from_str(uri))),
        }
    }
}

// ---------------------------------------------------------------------------
// Provider
// ---------------------------------------------------------------------------

/// The Zuplo provider: a write-only store of API gateway variables, reached
/// through the Zuplo CLI (`zuplo`). Variables cannot be read at all.
#[derive(Debug)]
pub struct ZuploProvider {
    config: ZuploConfig,
}

impl View for ZuploProvider {
    type V = ZuploConfigView;

    closed spec fn view(&self) -> ZuploConfigView {
        self.config@
    }
}

/// The message for a `zuplo` that is not installed.
pub open spec fn zuplo_not_installed_message() -> Seq<char> {
    "Zuplo CLI is not installed.\n\nTo install it:\n  npm install -g zuplo\n\nAfter installation, run 'zuplo login' to authenticate."@
}

/// The message for a `zuplo` that is not signed in.
pub open spec fn zuplo_auth_required_message() -> Seq<char> {
    "Zuplo authentication required. Please run 'zuplo login' first."@
}

/// The answer to every read.
pub open spec fn zuplo_read_unsupported_message() -> Seq<char> {
    "Zuplo provider does not support reading variables.\n\nThe Zuplo CLI does not provide a command to list or read variable values.\nThis provider only works with the 'export' command, not 'import'.\n\nUse: secretspec export zuplo://your-project/branch"@
}

/// Whether an error text from `zuplo` speaks of a missing sign-in.
pub open spec fn zuplo_mentions_auth_failure(msg: Seq<char>) -> bool {
    contains_seq(msg, "not logged"@) || contains_seq(msg, "authentication"@) || contains_seq(
        msg,
        "login"@,
    )
}

/// Whether an error text from `zuplo` says that the variable exists already.
pub open spec fn mentions_existing_variable(msg: Seq<char>) -> bool {
    contains_seq(msg, "already exists"@) || contains_seq(msg, "duplicate"@)
}

/// What a `zuplo` run that ended with `outcome` yields: its standard output,
/// or the error that describes the failure.
pub open spec fn zuplo_command_result(outcome: CommandOutcome) -> Result<Seq<char>, ErrorView> {
    match outcome {
        CommandOutcome::NotFound => Err(
            ErrorView::ProviderOperationFailed(zuplo_not_installed_message()),
        ),
        CommandOutcome::SpawnFailed(m) => Err(ErrorView::Io(m@)),
        CommandOutcome::Exited { success, stdout, stderr } => if !success {
            let msg = utf8_lossy(stderr@);
            if zuplo_mentions_auth_failure(msg) {
                Err(ErrorView::ProviderOperationFailed(zuplo_auth_required_message()))
            } else {
                Err(ErrorView::ProviderOperationFailed(msg))
            }
        } else if valid_utf8(stdout@) {
            Ok(decode_utf8(stdout@))
        } else {
            Err(ErrorView::ProviderOperationFailed(utf8_error_text(stdout@)))
        },
    }
}

/// The flags that name the project and the branch: `--project <project>`
/// where one is configured; `--branch <profile>` for a profile other than
/// `default`, else `--branch <branch>` where one is configured.
pub open spec fn target_flags(c: ZuploConfigView, profile: Seq<char>) -> Seq<Seq<char>> {
    let project_flags = match c.project {
        Some(p) => seq!["--project"@, p],
        None => Seq::empty(),
    };
    let branch_flags = if profile != "default"@ {
        seq!["--branch"@, profile]
    } else {
        match c.branch {
            Some(b) => seq!["--branch"@, b],
            None => Seq::empty(),
        }
    };
    project_flags + branch_flags
}

/// The arguments that create the secret variable `key` with `value`.
pub open spec fn create_args(c: ZuploConfigView, key: Seq<char>, value: Seq<char>, profile: Seq<char>) -> Seq<Seq<char>> {
    seq![
        "variable"@,
        "create"@,
        "--name"@,
        key,
        "--value"@,
        value,
        "--is-secret"@,
        "true"@,
    ] + target_flags(c, profile)
}

/// The arguments that update the variable `key` to `value`.
pub open spec fn update_args(c: ZuploConfigView, key: Seq<char>, value: Seq<char>, profile: Seq<char>) -> Seq<Seq<char>> {
    seq!["variable"@, "update"@, "--name"@, key, "--value"@, value] + target_flags(c, profile)
}

/// The next thing a write asks of its caller. (It holds the variable's
/// value, so it has no `Debug`.)
pub enum ZuploSetAction {
    /// Run `zuplo` with these arguments (`variable create`) and report the
    /// outcome as [`ZuploSetEvent::Created`].
    Create(Vec<String>),
    /// Run `zuplo` with these arguments (`variable update`) and report the
    /// outcome as [`ZuploSetEvent::Updated`].
    Update(Vec<String>),
    /// The write is over, with this result.
    Finish(Result<(), SecretSpecError>),
}

/// The value of a [`ZuploSetAction`].
pub enum ZuploSetActionView {
    Create(Seq<Seq<char>>),
    Update(Seq<Seq<char>>),
    Finish(Result<(), ErrorView>),
}

impl View for ZuploSetAction {
    type V = ZuploSetActionView;

    open spec fn view(&self) -> ZuploSetActionView {
        match self {
            ZuploSetAction::Create(args) => ZuploSetActionView::Create(args.deep_view()),
            ZuploSetAction::Update(args) => ZuploSetActionView::Update(args.deep_view()),
            ZuploSetAction::Finish(Ok(())) => ZuploSetActionView::Finish(Ok(())),
            ZuploSetAction::Finish(Err(e)) => ZuploSetActionView::Finish(Err(e@)),
        }
    }
}

/// The events that drive a write: the start, then the outcome of each command
/// that the write asked for.
#[derive(Debug)]
pub enum ZuploSetEvent {
    /// The write begins.
    Start,
    /// `zuplo variable create` ran, with this outcome.
    Created(CommandOutcome),
    /// `zuplo variable update` ran, with this outcome.
    Updated(CommandOutcome),
}

/// The next step of a write of `value` as the variable `key` for `profile` in
/// `project` by a provider configured with `c`, after `event`: create first;
/// where the variable exists already, update it; report any other failure.
/// The project plays no part: the configuration names the Zuplo project.
pub open spec fn zuplo_set_step(
    c: ZuploConfigView,
    project: Seq<char>,
    key: Seq<char>,
    value: Seq<char>,
    profile: Seq<char>,
    event: ZuploSetEvent,
) -> ZuploSetActionView {
    match event {
        ZuploSetEvent::Start => ZuploSetActionView::Create(create_args(c, key, value, profile)),
        ZuploSetEvent::Created(o) => match zuplo_command_result(o) {
            Ok(_) => ZuploSetActionView::Finish(Ok(())),
            Err(e) => match e {
                ErrorView::ProviderOperationFailed(m) => if mentions_existing_variable(m) {
                    ZuploSetActionView::Update(update_args(c, key, value, profile))
                } else {
                    ZuploSetActionView::Finish(Err(e))
                },
                _ => ZuploSetActionView::Finish(Err(e)),
            },
        },
        ZuploSetEvent::Updated(o) => match zuplo_command_result(o) {
            Ok(_) => ZuploSetActionView::Finish(Ok(())),
            Err(e) => ZuploSetActionView::Finish(Err(e)),
        },
    }
}

/// The value of the result of a read.
pub open spec fn read_result_view(r: Result<Option<String>, SecretSpecError>) -> Result<
    Option<Seq<char>>,
    ErrorView,
> {
    match r {
        Ok(Some(v)) => Ok(Some(v@)),
        Ok(None) => Ok(None),
        Err(e) => Err(e@),
    }
}

impl ZuploProvider {
    /// Creates a provider with the given configuration.
    pub fn new(config: ZuploConfig) -> (p: Self)
        ensures
            p@ == config@,
    {
        ZuploProvider { config }
    }

    /// The provider's name.
    pub fn name(&self) -> (r: &'static str)
        ensures
            r@ == "zuplo"@,
    {
        "zuplo"
    }

    /// Turns the outcome of a `zuplo` run into its standard output, or into
    /// the error that describes the failure (a missing CLI, a missing
    /// sign-in, or what the CLI wrote to standard error).
    pub fn interpret_zuplo_output(outcome: CommandOutcome) -> (r: Result<String, SecretSpecError>)
        ensures
            text_result_view(r) == zuplo_command_result(outcome),
    {
        match outcome {
            CommandOutcome::NotFound => Err(
                SecretSpecError::ProviderOperationFailed(
                    String::from_str(
                        "Zuplo CLI is not installed.\n\nTo install it:\n  npm install -g zuplo\n\nAfter installation, run 'zuplo login' to authenticate.",
                    ),
                ),
            ),
            CommandOutcome::SpawnFailed(m) => Err(SecretSpecError::Io(m)),
            CommandOutcome::Exited { success, stdout, stderr } => {
                if !success {
                    let msg = string_from_utf8_lossy(&stderr);
                    if contains(msg.as_str(), "not logged") || contains(
                        msg.as_str(),
                        "authentication",
                    ) || contains(msg.as_str(), "login") {
                        return Err(
                            SecretSpecError::ProviderOperationFailed(
                                String::from_str(
                                    "Zuplo authentication required. Please run 'zuplo login' first.",
                                ),
                            ),
                        );
                    }
                    return Err(SecretSpecError::ProviderOperationFailed(msg));
                }
                match string_from_utf8(stdout) {
                    Ok(s) => Ok(s),
                    Err(m) => Err(SecretSpecError::ProviderOperationFailed(m)),
                }
            },
        }
    }

    /// Appends to `base_args` the flags that name the configured project and
    /// the branch for `profile`: a profile other than `default` is the branch
    /// and overrides the configured one.
    pub fn build_args(&self, base_args: Vec<String>, profile: &str) -> (r: Vec<String>)
        ensures
            r.deep_view() == base_args.deep_view() + target_flags(self@, profile@),
    {
        let mut args = base_args;
        let ghost base = args.deep_view();
        if let Some(project) = &self.config.project {
            push_arg(&mut args, "--project");
            push_arg(&mut args, project.as_str());
        }
        if !str_eq(profile, "default") {
            push_arg(&mut args, "--branch");
            push_arg(&mut args, profile);
        } else if let Some(branch) = &self.config.branch {
            push_arg(&mut args, "--branch");
            push_arg(&mut args, branch.as_str());
        }
        assert(args.deep_view() =~= base + target_flags(self@, profile@));
        args
    }

    /// A read: always refused, since the Zuplo CLI cannot list or read
    /// variables.
    pub fn get(&self, _project: &str, _key: &str, _profile: &str) -> (r: Result<
        Option<String>,
        SecretSpecError,
    >)
        ensures
            read_result_view(r) == Err::<Option<Seq<char>>, ErrorView>(
                ErrorView::ProviderOperationFailed(zuplo_read_unsupported_message()),
            ),
    {
        Err(
            SecretSpecError::ProviderOperationFailed(
                String::from_str(
                    "Zuplo provider does not support reading variables.\n\nThe Zuplo CLI does not provide a command to list or read variable values.\nThis provider only works with the 'export' command, not 'import'.\n\nUse: secretspec export zuplo://your-project/branch",
                ),
            ),
        )
    }

    /// The next step of storing `value` as the variable `key` for `profile`,
    /// after `event`: create the variable (as a secret); where it exists
    /// already, update it instead.
    pub fn set(
        &self,
        project: &str,
        key: &str,
        value: &str,
        profile: &str,
        event: ZuploSetEvent,
    ) -> (a: ZuploSetAction)
        ensures
            a@ == zuplo_set_step(self@, project@, key@, value@, profile@, event),
    {
        match event {
            ZuploSetEvent::Start => {
                let mut base: Vec<String> = Vec::new();
                push_arg(&mut base, "variable");
                push_arg(&mut base, "create");
                push_arg(&mut base, "--name");
                push_arg(&mut base, key);
                push_arg(&mut base, "--value");
                push_arg(&mut base, value);
                push_arg(&mut base, "--is-secret");
                push_arg(&mut base, "true");
                let args = self.build_args(base, profile);
                assert(args.deep_view() =~= create_args(self@, key@, value@, profile@));
                ZuploSetAction::Create(args)
            },
            ZuploSetEvent::Created(o) => {
                match Self::interpret_zuplo_output(o) {
                    Ok(_) => ZuploSetAction::Finish(Ok(())),
                    Err(SecretSpecError::ProviderOperationFailed(msg)) => {
                        if contains(msg.as_str(), "already exists") || contains(
                            msg.as_str(),
                            "duplicate",
                        ) {
                            let mut base: Vec<String> = Vec::new();
                            push_arg(&mut base, "variable");
                            push_arg(&mut base, "update");
                            push_arg(&mut base, "--name");
                            push_arg(&mut base, key);
                            push_arg(&mut base, "--value");
                            push_arg(&mut base, value);
                            let args = self.build_args(base, profile);
                            assert(args.deep_view() =~= update_args(self@, key@, value@, profile@));
                            ZuploSetAction::Update(args)
                        } else {
                            ZuploSetAction::Finish(Err(SecretSpecError::ProviderOperationFailed(msg)))
                        }
                    },
                    Err(e) => ZuploSetAction::Finish(Err(e)),
                }
            },
            ZuploSetEvent::Updated(o) => {
                match Self::interpret_zuplo_output(o) {
                    Ok(_) => ZuploSetAction::Finish(Ok(())),
                    Err(e) => ZuploSetAction::Finish(Err(e)),
                }
            },
        }
    }
}

impl Default for ZuploProvider {
    /// A provider with the default configuration: the CLI's current project
    /// and branch context.
    fn default() -> (p: Self)
        ensures
            p@.project is None,
            p@.branch is None,
    {
        ZuploProvider::new(ZuploConfig::default())
    }
}

} // verus!
