use vstd::prelude::*;
use vstd::string::*;
use vstd::utf8::*;

use crate::command::{
    push_arg, string_from_utf8, string_from_utf8_lossy, utf8_error_text, utf8_lossy,
    CommandOutcome,
};
use crate::error::{text_result_view, ErrorView, SecretSpecError};
use crate::text::{
    chars_of, contains, contains_seq, find_line_end, first_token, first_token_bounds,
    lemma_line_end, line_at, range_equals, skip_white_space, starts_line, str_eq,
    trim_leading_slashes, trim_start_slashes,
};
use crate::url_parts::{opt_text, parse_url, url_parts_of, UrlParts, UrlPartsView};

verus! {

// ---------------------------------------------------------------------------
// Configuration
// ---------------------------------------------------------------------------

/// Configuration for the GitHub Actions provider: the repository that holds
/// the secrets and, optionally, the account (host name) that `gh` acts as.
#[derive(Debug, Clone, PartialEq, Eq)]
pub struct GitHubActionsConfig {
    /// The GitHub repository in OWNER/REPO form.
    pub repo: String,
    /// Optional account, passed to `gh` as `--hostname`.
    pub account: Option<String>,
}

/// The value of a [`GitHubActionsConfig`].
pub struct GitHubActionsConfigView {
    pub repo: Seq<char>,
    pub account: Option<Seq<char>>,
}

impl View for GitHubActionsConfig {
    type V = GitHubActionsConfigView;

    open spec fn view(&self) -> GitHubActionsConfigView {
        GitHubActionsConfigView { repo: self.repo@, account: opt_text(self.account) }
    }
}

impl Default for GitHubActionsConfig {
    /// An empty repository and no account.
    fn default() -> (c: Self)
        ensures
            c@.repo == Seq::<char>::empty(),
            c@.account is None,
    {
        GitHubActionsConfig { repo: String::new(), account: None }
    }
}

/// The message for a URI whose scheme is not one of this provider's.
pub open spec fn github_invalid_scheme_message(scheme: Seq<char>) -> Seq<char> {
    "Invalid scheme '"@ + scheme
        + "' for GitHub Actions provider. Use 'ghactions' or 'github-actions'"@
}

/// The message for a URI that names no repository.
pub open spec fn github_missing_repo_message() -> Seq<char> {
    "GitHub repository must be specified in format: ghactions://owner/repo"@
}

/// The repository that a URL with host `host` and path `path` names: the
/// host, followed by `/` and the path without leading slashes where that is
/// not empty.
pub open spec fn repo_of(host: Seq<char>, path: Seq<char>) -> Seq<char> {
    let p = trim_leading_slashes(path);
    if p.len() == 0 {
        host
    } else {
        host + "/"@ + p
    }
}

/// The configuration that a provider URL describes, or the error for it.
/// Format: `ghactions://[account@]owner/repo` (or `github-actions://`); a
/// missing host, or the host `localhost`, names no repository.
pub open spec fn github_config_from(url: UrlPartsView) -> Result<GitHubActionsConfigView, ErrorView> {
    if url.scheme != "ghactions"@ && url.scheme != "github-actions"@ {
        Err(ErrorView::ProviderOperationFailed(github_invalid_scheme_message(url.scheme)))
    } else {
        let c = match url.host {
            Some(h) => if h != "localhost"@ {
                GitHubActionsConfigView {
                    repo: repo_of(h, url.path),
                    account: if url.username.len() > 0 {
                        Some(url.username)
                    } else {
                        None
                    },
                }
            } else {
                GitHubActionsConfigView { repo: Seq::empty(), account: None }
            },
            None => GitHubActionsConfigView { repo: Seq::empty(), account: None },
        };
        if c.repo.len() == 0 {
            Err(ErrorView::ProviderOperationFailed(github_missing_repo_message()))
        } else {
            Ok(c)
        }
    }
}

/// The value of a configuration result.
pub open spec fn github_config_result_view(r: Result<GitHubActionsConfig, SecretSpecError>) -> Result<
    GitHubActionsConfigView,
    ErrorView,
> {
    match r {
        Ok(c) => Ok(c@),
        Err(e) => Err(e@),
    }
}

impl GitHubActionsConfig {
    /// Reads the configuration from the parts of a provider URL.
    pub fn try_from(url: &UrlParts) -> (r: Result<GitHubActionsConfig, SecretSpecError>)
        ensures
            github_config_result_view(r) == github_config_from(url@),
    {
        let scheme = url.scheme.as_str();
        if !str_eq(scheme, "ghactions") && !str_eq(scheme, "github-actions") {
            let mut msg = String::from_str("Invalid scheme '");
            msg.append(scheme);
            msg.append("' for GitHub Actions provider. Use 'ghactions' or 'github-actions'");
            return Err(SecretSpecError::ProviderOperationFailed(msg));
        }
        let mut config = GitHubActionsConfig::default();
        if let Some(host) = &url.host {
            if !str_eq(host.as_str(), "localhost") {
                if !url.username.as_str().is_empty() {
                    config.account = Some(url.username.clone());
                }
                let path = trim_start_slashes(url.path.as_str());
                if path.as_str().is_empty() {
                    config.repo = host.clone();
                } else {
                    let mut repo = host.clone();
                    repo.append("/");
                    repo.append(path.as_str());
                    config.repo = repo;
                }
            }
        }
        if config.repo.as_str().is_empty() {
            return Err(
                SecretSpecError::ProviderOperationFailed(
                    String::from_str(
                        "GitHub repository must be specified in format: ghactions://owner/repo",
                    ),
                ),
            );
        }
        Ok(config)
    }

    /// Parses a provider URI (such as `ghactions://owner/repo`) and reads the
    /// configuration from it.
    pub fn from_uri(uri: &str) -> (r: Result<GitHubActionsConfig, SecretSpecError>)
        ensures
            match url_parts_of(uri@) {
                None => github_config_result_view(r) == Err::<GitHubActionsConfigView, ErrorView>(
                    ErrorView::InvalidUrl(uri@),
                ),
                Some(p) => github_config_result_view(r) == github_config_from(p),
            },
    {
        match parse_url(uri) {
            Ok(parts) => GitHubActionsConfig::try_from(&parts),
            Err(_) => Err(SecretSpecError::InvalidUrl(String::from_str(uri))),
        }
    }
}

// ---------------------------------------------------------------------------
// Provider
// ---------------------------------------------------------------------------

/// The GitHub Actions provider: a write-only store of repository and
/// environment secrets, reached through the GitHub CLI (`gh`). Secret values
/// cannot be read back; a read only tells whether the secret exists.
#[derive(Debug)]
pub struct GitHubActionsProvider {
    config: GitHubActionsConfig,
}

impl View for GitHubActionsProvider {
    type V = GitHubActionsConfigView;

    closed spec fn view(&self) -> GitHubActionsConfigView {
        self.config@
    }
}

/// The message for a `gh` that is not installed.
pub open spec fn gh_not_installed_message() -> Seq<char> {
    "GitHub CLI (gh) is not installed.\n\nTo install it:\n  - macOS: brew install gh\n  - Linux: See https://github.com/cli/cli/blob/trunk/docs/install_linux.md\n  - Windows: See https://github.com/cli/cli/blob/trunk/docs/install_windows.md\n\nAfter installation, run 'gh auth login' to authenticate."@
}

/// The message for a `gh` that is not signed in.
pub open spec fn gh_auth_required_message() -> Seq<char> {
    "GitHub authentication required. Please run 'gh auth login' first."@
}

/// The message for a `gh` that is not installed, when storing a secret.
pub open spec fn gh_not_installed_short_message() -> Seq<char> {
    "GitHub CLI (gh) is not installed. Please install it first."@
}

/// The value that a read gives for a secret that exists: GitHub never hands
/// out the real value.
pub open spec fn encrypted_placeholder() -> Seq<char> {
    "***ENCRYPTED***"@
}

/// Whether an error text from `gh` speaks of a missing sign-in.
pub open spec fn mentions_auth_failure(msg: Seq<char>) -> bool {
    contains_seq(msg, "not logged"@) || contains_seq(msg, "authentication"@)
}

/// What a `gh` run that ended with `outcome` yields: its standard output, or
/// the error that describes the failure.
pub open spec fn gh_command_result(outcome: CommandOutcome) -> Result<Seq<char>, ErrorView> {
    match outcome {
        CommandOutcome::NotFound => Err(ErrorView::ProviderOperationFailed(gh_not_installed_message())),
        CommandOutcome::SpawnFailed(m) => Err(ErrorView::Io(m@)),
        CommandOutcome::Exited { success, stdout, stderr } => if !success {
            let msg = utf8_lossy(stderr@);
            if mentions_auth_failure(msg) {
                Err(ErrorView::ProviderOperationFailed(gh_auth_required_message()))
            } else {
                Err(ErrorView::ProviderOperationFailed(msg))
            }
        } else if valid_utf8(stdout@) {
            Ok(decode_utf8(stdout@))
        } else {
            Err(ErrorView::ProviderOperationFailed(utf8_error_text(stdout@)))
        },
    }
}

/// Whether the result of `gh auth status` shows a signed-in user: any success
/// does; a failure that speaks of a missing sign-in does not; any other
/// failure is passed on.
pub open spec fn authenticated_from(status: Result<Seq<char>, ErrorView>) -> Result<bool, ErrorView> {
    match status {
        Ok(_) => Ok(true),
        Err(e) => match e {
            ErrorView::ProviderOperationFailed(m) => if mentions_auth_failure(m) {
                Ok(false)
            } else {
                Err(e)
            },
            _ => Err(e),
        },
    }
}

/// The value of a boolean result.
pub open spec fn bool_result_view(r: Result<bool, SecretSpecError>) -> Result<bool, ErrorView> {
    match r {
        Ok(b) => Ok(b),
        Err(e) => Err(e@),
    }
}

/// The full argument list for `gh`: `--hostname <account>` first where an
/// account is configured, then `args`.
pub open spec fn gh_command_line(account: Option<Seq<char>>, args: Seq<Seq<char>>) -> Seq<Seq<char>> {
    match account {
        Some(a) => seq!["--hostname"@, a] + args,
        None => args,
    }
}

/// The environment flag for a profile: none for `default`, `--env=<profile>`
/// otherwise.
pub open spec fn env_flag(profile: Seq<char>) -> Seq<Seq<char>> {
    if profile == "default"@ {
        Seq::empty()
    } else {
        seq!["--env="@ + profile]
    }
}

/// Arguments that ask `gh` whether a user is signed in.
pub open spec fn auth_status_args() -> Seq<Seq<char>> {
    seq!["auth"@, "status"@]
}

/// Arguments that list the secrets of `repo` for `profile`.
pub open spec fn secret_list_args(repo: Seq<char>, profile: Seq<char>) -> Seq<Seq<char>> {
    seq!["secret"@, "list"@, "--repo"@, repo] + env_flag(profile)
}

/// Arguments that store `value` as the secret `key` of `repo` for `profile`.
pub open spec fn secret_set_args(
    key: Seq<char>,
    repo: Seq<char>,
    profile: Seq<char>,
    value: Seq<char>,
) -> Seq<Seq<char>> {
    seq!["secret"@, "set"@, key, "--repo"@, repo] + env_flag(profile) + seq![
        "--body"@,
        value,
    ]
}

/// The first line of a `gh secret list` output is its header where it begins
/// with the word `NAME`: no white space before it, and `NAME` is its whole
/// first word.
pub open spec fn is_listing_header(output: Seq<char>, i: int) -> bool {
    &&& i == 0
    &&& skip_white_space(line_at(output, 0), 0) == 0
    &&& first_token(line_at(output, 0)) == Some("NAME"@)
}

/// The line of the listing `output` that begins at index `i` names the secret
/// `key`: it is not the header, and its first word is `key`. (Blank lines have
/// no first word; a line's closing carriage return is white space and so
/// changes nothing.)
pub open spec fn line_lists_secret(output: Seq<char>, i: int, key: Seq<char>) -> bool {
    !is_listing_header(output, i) && first_token(line_at(output, i)) == Some(key)
}

/// Some line of the listing `output` names the secret `key`.
pub open spec fn listing_names(output: Seq<char>, key: Seq<char>) -> bool {
    exists|i: int|
        0 <= i <= output.len() && starts_line(output, i) && #[trigger] line_lists_secret(
            output,
            i,
            key,
        )
}

/// What the outcome of storing a secret means.
pub open spec fn gh_set_result(key: Seq<char>, outcome: CommandOutcome) -> Result<(), ErrorView> {
    match outcome {
        CommandOutcome::NotFound => Err(
            ErrorView::ProviderOperationFailed(gh_not_installed_short_message()),
        ),
        CommandOutcome::SpawnFailed(m) => Err(ErrorView::Io(m@)),
        CommandOutcome::Exited { success, stdout, stderr } => if success {
            Ok(())
        } else {
            Err(
                ErrorView::ProviderOperationFailed(
                    "Failed to set secret '"@ + key + "': "@ + utf8_lossy(stderr@),
                ),
            )
        },
    }
}

/// The next thing a read asks of its caller.
#[derive(Debug)]
pub enum GitHubGetAction {
    /// Run `gh` with these arguments (`auth status`) and report the outcome as
    /// [`GitHubGetEvent::AuthChecked`].
    CheckAuth(Vec<String>),
    /// Run `gh` with these arguments (`secret list`) and report the outcome as
    /// [`GitHubGetEvent::Listed`].
    ListSecrets(Vec<String>),
    /// The read is over, with this result.
    Finish(Result<Option<String>, SecretSpecError>),
}

/// The next thing a write asks of its caller. (It holds the secret's value,
/// so it has no `Debug`.)
pub enum GitHubSetAction {
    /// Run `gh` with these arguments (`auth status`) and report the outcome as
    /// [`GitHubSetEvent::AuthChecked`].
    CheckAuth(Vec<String>),
    /// Run `gh` with these arguments (`secret set`) and report the outcome as
    /// [`GitHubSetEvent::Stored`].
    StoreSecret(Vec<String>),
    /// The write is over, with this result.
    Finish(Result<(), SecretSpecError>),
}

/// The value of a [`GitHubGetAction`].
pub enum GitHubGetActionView {
    CheckAuth(Seq<Seq<char>>),
    ListSecrets(Seq<Seq<char>>),
    Finish(Result<Option<Seq<char>>, ErrorView>),
}

/// The value of a [`GitHubSetAction`].
pub enum GitHubSetActionView {
    CheckAuth(Seq<Seq<char>>),
    StoreSecret(Seq<Seq<char>>),
    Finish(Result<(), ErrorView>),
}

impl View for GitHubGetAction {
    type V = GitHubGetActionView;

    open spec fn view(&self) -> GitHubGetActionView {
        match self {
            GitHubGetAction::CheckAuth(args) => GitHubGetActionView::CheckAuth(args.deep_view()),
            GitHubGetAction::ListSecrets(args) => GitHubGetActionView::ListSecrets(args.deep_view()),
            GitHubGetAction::Finish(Ok(Some(v))) => GitHubGetActionView::Finish(Ok(Some(v@))),
            GitHubGetAction::Finish(Ok(None)) => GitHubGetActionView::Finish(Ok(None)),
            GitHubGetAction::Finish(Err(e)) => GitHubGetActionView::Finish(Err(e@)),
        }
    }
}

impl View for GitHubSetAction {
    type V = GitHubSetActionView;

    open spec fn view(&self) -> GitHubSetActionView {
        match self {
            GitHubSetAction::CheckAuth(args) => GitHubSetActionView::CheckAuth(args.deep_view()),
            GitHubSetAction::StoreSecret(args) => GitHubSetActionView::StoreSecret(args.deep_view()),
            GitHubSetAction::Finish(Ok(())) => GitHubSetActionView::Finish(Ok(())),
            GitHubSetAction::Finish(Err(e)) => GitHubSetActionView::Finish(Err(e@)),
        }
    }
}

/// The events that drive a read: the start, then the outcome of each command
/// that the read asked for.
#[derive(Debug)]
pub enum GitHubGetEvent {
    /// The read begins.
    Start,
    /// `gh auth status` ran, with this outcome.
    AuthChecked(CommandOutcome),
    /// `gh secret list` ran, with this outcome.
    Listed(CommandOutcome),
}

/// The events that drive a write: the start, then the outcome of each command
/// that the write asked for.
#[derive(Debug)]
pub enum GitHubSetEvent {
    /// The write begins.
    Start,
    /// `gh auth status` ran, with this outcome.
    AuthChecked(CommandOutcome),
    /// `gh secret set` ran, with this outcome.
    Stored(CommandOutcome),
}

/// The next step of a read of secret `key` for `profile` in `project` by a
/// provider configured with `c`, after `event`. The project plays no part:
/// the repository is the namespace.
pub open spec fn github_get_step(
    c: GitHubActionsConfigView,
    project: Seq<char>,
    key: Seq<char>,
    profile: Seq<char>,
    event: GitHubGetEvent,
) -> GitHubGetActionView {
    match event {
        GitHubGetEvent::Start => GitHubGetActionView::CheckAuth(
            gh_command_line(c.account, auth_status_args()),
        ),
        GitHubGetEvent::AuthChecked(o) => match authenticated_from(gh_command_result(o)) {
            Err(e) => GitHubGetActionView::Finish(Err(e)),
            Ok(false) => GitHubGetActionView::Finish(
                Err(ErrorView::ProviderOperationFailed(gh_auth_required_message())),
            ),
            Ok(true) => GitHubGetActionView::ListSecrets(
                gh_command_line(c.account, secret_list_args(c.repo, profile)),
            ),
        },
        GitHubGetEvent::Listed(o) => match gh_command_result(o) {
            Err(_) => GitHubGetActionView::Finish(Ok(None)),
            Ok(out) => GitHubGetActionView::Finish(
                Ok(
                    if listing_names(out, key) {
                        Some(encrypted_placeholder())
                    } else {
                        None
                    },
                ),
            ),
        },
    }
}

/// The next step of a write of `value` as secret `key` for `profile` in
/// `project` by a provider configured with `c`, after `event`. The project
/// plays no part: the repository is the namespace.
pub open spec fn github_set_step(
    c: GitHubActionsConfigView,
    project: Seq<char>,
    key: Seq<char>,
    value: Seq<char>,
    profile: Seq<char>,
    event: GitHubSetEvent,
) -> GitHubSetActionView {
    match event {
        GitHubSetEvent::Start => GitHubSetActionView::CheckAuth(
            gh_command_line(c.account, auth_status_args()),
        ),
        GitHubSetEvent::AuthChecked(o) => match authenticated_from(gh_command_result(o)) {
            Err(e) => GitHubSetActionView::Finish(Err(e)),
            Ok(false) => GitHubSetActionView::Finish(
                Err(ErrorView::ProviderOperationFailed(gh_auth_required_message())),
            ),
            Ok(true) => GitHubSetActionView::StoreSecret(
                gh_command_line(c.account, secret_set_args(key, c.repo, profile, value)),
            ),
        },
        GitHubSetEvent::Stored(o) => GitHubSetActionView::Finish(gh_set_result(key, o)),
    }
}

/// Whether some line of the listing `output` names the secret `key`.
pub fn listing_contains(output: &str, key: &str) -> (r: bool)
    ensures
        r == listing_names(output@, key@),
{
    let chars = chars_of(output);
    let key_chars = chars_of(key);
    let name = chars_of("NAME");
    let n = chars.len();
    let mut start: usize = 0;
    loop
        invariant
            n == output@.len(),
            chars@ == output@,
            key_chars@ == key@,
            name@ == "NAME"@,
            start <= n,
            starts_line(output@, start as int),
            forall|i: int|
                0 <= i < start && starts_line(output@, i) ==> !#[trigger] line_lists_secret(
                    output@,
                    i,
                    key@,
                ),
        decreases n - start,
    {
        let end = find_line_end(&chars, start);
        proof {
            lemma_line_end(output@, start as int);
        }
        let ghost line = output@.subrange(start as int, end as int);
        assert(line == line_at(output@, start as int));
        let mut listed = false;
        match first_token_bounds(&chars, start, end) {
            Some((a, b)) => {
                let is_header = start == 0 && a == 0 && range_equals(&chars, a, b, &name);
                listed = !is_header && range_equals(&chars, a, b, &key_chars);
            },
            None => {},
        }
        assert(listed == line_lists_secret(output@, start as int, key@));
        if listed {
            return true;
        }
        if end == n {
            assert forall|i: int|
                0 <= i <= output@.len() && starts_line(output@, i) implies !#[trigger] line_lists_secret(
                output@,
                i,
                key@,
            ) by {
                if i > start {
                    assert(output@[i - 1] != '\n');
                }
            }
            return false;
        }
        assert forall|i: int|
            0 <= i < end + 1 && starts_line(output@, i) implies !#[trigger] line_lists_secret(
            output@,
            i,
            key@,
        ) by {
            if i > start {
                assert(output@[i - 1] != '\n' || i - 1 == end);
            }
        }
        start = end + 1;
    }
}

impl GitHubActionsProvider {
    /// Creates a provider with the given configuration.
    pub fn new(config: GitHubActionsConfig) -> (p: Self)
        ensures
            p@ == config@,
    {
        GitHubActionsProvider { config }
    }

    /// The provider's name.
    pub fn name(&self) -> (r: &'static str)
        ensures
            r@ == "github-actions"@,
    {
        "github-actions"
    }

    /// The full argument list for `gh` that runs `args` as the configured
    /// account: `--hostname <account>` first where an account is configured.
    pub fn command_line(&self, args: Vec<String>) -> (r: Vec<String>)
        ensures
            r.deep_view() == gh_command_line(self@.account, args.deep_view()),
    {
        match &self.config.account {
            Some(account) => {
                let mut full: Vec<String> = Vec::new();
                push_arg(&mut full, "--hostname");
                push_arg(&mut full, account.as_str());
                let mut rest = args;
                let ghost rest0 = rest.deep_view();
                let ghost head = full.deep_view();
                let ghost f0 = full@;
                let ghost r0 = rest@;
                full.append(&mut rest);
                assert(full@ == f0 + r0);
                assert(full.deep_view() =~= head + rest0);
                full
            },
            None => args,
        }
    }

    /// Turns the outcome of a `gh` run into its standard output, or into the
    /// error that describes the failure (a missing `gh`, a missing sign-in,
    /// or what `gh` wrote to standard error).
    pub fn interpret_gh_output(outcome: CommandOutcome) -> (r: Result<String, SecretSpecError>)
        ensures
            text_result_view(r) == gh_command_result(outcome),
    {
        match outcome {
            CommandOutcome::NotFound => Err(
                SecretSpecError::ProviderOperationFailed(
                    String::from_str(
                        "GitHub CLI (gh) is not installed.\n\nTo install it:\n  - macOS: brew install gh\n  - Linux: See https://github.com/cli/cli/blob/trunk/docs/install_linux.md\n  - Windows: See https://github.com/cli/cli/blob/trunk/docs/install_windows.md\n\nAfter installation, run 'gh auth login' to authenticate.",
                    ),
                ),
            ),
            CommandOutcome::SpawnFailed(m) => Err(SecretSpecError::Io(m)),
            CommandOutcome::Exited { success, stdout, stderr } => {
                if !success {
                    let msg = string_from_utf8_lossy(&stderr);
                    if contains(msg.as_str(), "not logged") || contains(
                        msg.as_str(),
                        "authentication",
                    ) {
                        return Err(
                            SecretSpecError::ProviderOperationFailed(
                                String::from_str(
                                    "GitHub authentication required. Please run 'gh auth login' first.",
                                ),
                            ),
                        );
                    }
                    return Err(SecretSpecError::ProviderOperationFailed(msg));
                }
                match string_from_utf8(stdout) {
                    Ok(s) => Ok(s),
                    Err(m) => Err(SecretSpecError::ProviderOperationFailed(m)),
                }
            },
        }
    }

    /// Whether a user is signed in, judged from the result of `gh auth status`.
    pub fn is_authenticated(&self, status: Result<String, SecretSpecError>) -> (r: Result<
        bool,
        SecretSpecError,
    >)
        ensures
            bool_result_view(r) == authenticated_from(text_result_view(status)),
    {
        match status {
            Ok(_) => Ok(true),
            Err(SecretSpecError::ProviderOperationFailed(msg)) => {
                if contains(msg.as_str(), "not logged") || contains(msg.as_str(), "authentication") {
                    Ok(false)
                } else {
                    Err(SecretSpecError::ProviderOperationFailed(msg))
                }
            },
            Err(e) => Err(e),
        }
    }

    /// Appends the environment flag for `profile`.
    fn push_env_flag(args: &mut Vec<String>, profile: &str)
        ensures
            final(args).deep_view() == old(args).deep_view() + env_flag(profile@),
    {
        if !str_eq(profile, "default") {
            let mut flag = String::from_str("--env=");
            flag.append(profile);
            let ghost before = args.deep_view();
            args.push(flag);
            assert(args.deep_view() =~= before + env_flag(profile@));
        } else {
            assert(old(args).deep_view() + env_flag(profile@) =~= old(args).deep_view());
        }
    }

    /// The command for `gh auth status`.
    fn auth_status_command(&self) -> (r: Vec<String>)
        ensures
            r.deep_view() == gh_command_line(self@.account, auth_status_args()),
    {
        let mut args: Vec<String> = Vec::new();
        push_arg(&mut args, "auth");
        push_arg(&mut args, "status");
        assert(args.deep_view() =~= auth_status_args());
        self.command_line(args)
    }

    /// The next step of reading the secret `key` for `profile`, after `event`.
    /// A read first checks the sign-in, then lists the secrets of the
    /// repository (of the profile's environment) and answers with a
    /// placeholder where the key is listed; a listing that fails means the
    /// secret does not exist.
    pub fn get(&self, project: &str, key: &str, profile: &str, event: GitHubGetEvent) -> (a:
        GitHubGetAction)
        ensures
            a@ == github_get_step(self@, project@, key@, profile@, event),
    {
        match event {
            GitHubGetEvent::Start => GitHubGetAction::CheckAuth(self.auth_status_command()),
            GitHubGetEvent::AuthChecked(o) => {
                match self.is_authenticated(Self::interpret_gh_output(o)) {
                    Err(e) => GitHubGetAction::Finish(Err(e)),
                    Ok(false) => GitHubGetAction::Finish(
                        Err(
                            SecretSpecError::ProviderOperationFailed(
                                String::from_str(
                                    "GitHub authentication required. Please run 'gh auth login' first.",
                                ),
                            ),
                        ),
                    ),
                    Ok(true) => {
                        let mut args: Vec<String> = Vec::new();
                        push_arg(&mut args, "secret");
                        push_arg(&mut args, "list");
                        push_arg(&mut args, "--repo");
                        push_arg(&mut args, self.config.repo.as_str());
                        Self::push_env_flag(&mut args, profile);
                        assert(args.deep_view() =~= secret_list_args(self@.repo, profile@));
                        GitHubGetAction::ListSecrets(self.command_line(args))
                    },
                }
            },
            GitHubGetEvent::Listed(o) => {
                match Self::interpret_gh_output(o) {
                    Err(_) => GitHubGetAction::Finish(Ok(None)),
                    Ok(out) => {
                        if listing_contains(out.as_str(), key) {
                            GitHubGetAction::Finish(Ok(Some(String::from_str("***ENCRYPTED***"))))
                        } else {
                            GitHubGetAction::Finish(Ok(None))
                        }
                    },
                }
            },
        }
    }

    /// The result of `gh secret set` for the secret `key`.
    pub fn interpret_set_output(key: &str, outcome: CommandOutcome) -> (r: Result<(), SecretSpecError>)
        ensures
            match r {
                Ok(()) => gh_set_result(key@, outcome) == Ok::<(), ErrorView>(()),
                Err(e) => gh_set_result(key@, outcome) == Err::<(), ErrorView>(e@),
            },
    {
        match outcome {
            CommandOutcome::NotFound => Err(
                SecretSpecError::ProviderOperationFailed(
                    String::from_str("GitHub CLI (gh) is not installed. Please install it first."),
                ),
            ),
            CommandOutcome::SpawnFailed(m) => Err(SecretSpecError::Io(m)),
            CommandOutcome::Exited { success, stdout: _, stderr } => {
                if success {
                    Ok(())
                } else {
                    let lossy = string_from_utf8_lossy(&stderr);
                    let mut msg = String::from_str("Failed to set secret '");
                    msg.append(key);
                    msg.append("': ");
                    msg.append(lossy.as_str());
                    Err(SecretSpecError::ProviderOperationFailed(msg))
                }
            },
        }
    }

    /// The next step of storing `value` as the secret `key` for `profile`,
    /// after `event`. A write first checks the sign-in, then runs
    /// `gh secret set` (with `--env=<profile>` for a profile other than
    /// `default`) and reports what became of it.
    pub fn set(
        &self,
        project: &str,
        key: &str,
        value: &str,
        profile: &str,
        event: GitHubSetEvent,
    ) -> (a: GitHubSetAction)
        ensures
            a@ == github_set_step(self@, project@, key@, value@, profile@, event),
    {
        match event {
            GitHubSetEvent::Start => GitHubSetAction::CheckAuth(self.auth_status_command()),
            GitHubSetEvent::AuthChecked(o) => {
                match self.is_authenticated(Self::interpret_gh_output(o)) {
                    Err(e) => GitHubSetAction::Finish(Err(e)),
                    Ok(false) => GitHubSetAction::Finish(
                        Err(
                            SecretSpecError::ProviderOperationFailed(
                                String::from_str(
                                    "GitHub authentication required. Please run 'gh auth login' first.",
                                ),
                            ),
                        ),
                    ),
                    Ok(true) => {
                        let mut args: Vec<String> = Vec::new();
                        push_arg(&mut args, "secret");
                        push_arg(&mut args, "set");
                        push_arg(&mut args, key);
                        push_arg(&mut args, "--repo");
                        push_arg(&mut args, self.config.repo.as_str());
                        Self::push_env_flag(&mut args, profile);
                        push_arg(&mut args, "--body");
                        push_arg(&mut args, value);
                        assert(args.deep_view() =~= secret_set_args(
                            key@,
                            self@.repo,
                            profile@,
                            value@,
                        ));
                        GitHubSetAction::StoreSecret(self.command_line(args))
                    },
                }
            },
            GitHubSetEvent::Stored(o) => {
                match Self::interpret_set_output(key, o) {
                    Ok(()) => GitHubSetAction::Finish(Ok(())),
                    Err(e) => GitHubSetAction::Finish(Err(e)),
                }
            },
        }
    }
}

impl Default for GitHubActionsProvider {
    /// A provider with the default configuration: an empty repository and no
    /// account; meant to be replaced by one made with `new`.
    fn default() -> (p: Self)
        ensures
            p@.repo == Seq::<char>::empty(),
            p@.account is None,
    {
        GitHubActionsProvider::new(GitHubActionsConfig::default())
    }
}

} // verus!
