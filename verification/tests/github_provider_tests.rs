use secretspec::command::CommandOutcome;
use secretspec::error::SecretSpecError;
use secretspec::github_actions::{
    listing_contains, GitHubActionsConfig, GitHubActionsProvider, GitHubGetAction, GitHubGetEvent,
    GitHubSetAction, GitHubSetEvent,
};

const AUTH_REQUIRED: &str = "GitHub authentication required. Please run 'gh auth login' first.";

fn provider(account: Option<&str>) -> GitHubActionsProvider {
    GitHubActionsProvider::new(GitHubActionsConfig {
        repo: "myorg/myrepo".to_string(),
        account: account.map(|a| a.to_string()),
    })
}

fn ok(stdout: &str) -> CommandOutcome {
    CommandOutcome::Exited { success: true, stdout: stdout.as_bytes().to_vec(), stderr: vec![] }
}

fn fail(stderr: &str) -> CommandOutcome {
    CommandOutcome::Exited { success: false, stdout: vec![], stderr: stderr.as_bytes().to_vec() }
}

fn strings(v: &[&str]) -> Vec<String> {
    v.iter().map(|s| s.to_string()).collect()
}

fn failed(msg: &str) -> SecretSpecError {
    SecretSpecError::ProviderOperationFailed(msg.to_string())
}

#[test]
fn provider_name() {
    assert_eq!(provider(None).name(), "github-actions");
}

#[test]
fn listing_finds_key_in_first_column() {
    let out = "NAME\tUPDATED\nAPI_KEY\t2024-01-01\nDB_URL\t2024-01-02\n";
    assert!(listing_contains(out, "API_KEY"));
    assert!(listing_contains(out, "DB_URL"));
    assert!(!listing_contains(out, "UPDATED"));
    assert!(!listing_contains(out, "2024-01-01"));
}

#[test]
fn listing_skips_header_and_blank_lines() {
    assert!(!listing_contains("NAME  UPDATED\n\n", "NAME"));
    assert!(!listing_contains("", "API_KEY"));
    assert!(!listing_contains("\n\n", ""));
}

#[test]
fn listing_header_is_only_the_first_line() {
    assert!(listing_contains("NAMESPACE x\n", "NAMESPACE"));
    assert!(listing_contains("NAME_TOKEN\t2024-01-01T00:00:00Z\n", "NAME_TOKEN"));
    assert!(listing_contains("NAME\tUPDATED\nNAME_TOKEN\tnow\n", "NAME_TOKEN"));
    assert!(listing_contains("NAME\tUPDATED\nNAME\tnow\n", "NAME"));
    assert!(!listing_contains("NAME\tUPDATED\n", "NAME"));
}

#[test]
fn listing_indented_first_line_is_not_header() {
    assert!(listing_contains("  NAME\tnow\n", "NAME"));
    assert!(listing_contains("\tNAME\n", "NAME"));
    assert!(!listing_contains("NAME\n", "NAME"));
}

#[test]
fn get_finds_secret_whose_name_starts_with_name() {
    let p = provider(None);
    let listing = ok("NAME_TOKEN\t2024-01-01T00:00:00Z\n");
    match p.get("my-app", "NAME_TOKEN", "default", GitHubGetEvent::Listed(listing)) {
        GitHubGetAction::Finish(r) => assert_eq!(r, Ok(Some("***ENCRYPTED***".to_string()))),
        _ => panic!("unexpected step"),
    }
}

#[test]
fn listing_handles_crlf_and_indentation() {
    assert!(listing_contains("NAME UPDATED\r\n  API_KEY  now\r\n", "API_KEY"));
    assert!(listing_contains("API_KEY", "API_KEY"));
    assert!(listing_contains("OTHER\nAPI_KEY\r", "API_KEY"));
    assert!(!listing_contains("API_KEYS x\n", "API_KEY"));
}

#[test]
fn gh_output_success_is_stdout() {
    assert_eq!(GitHubActionsProvider::interpret_gh_output(ok("hello\n")), Ok("hello\n".to_string()));
}

#[test]
fn gh_output_missing_cli() {
    let r = GitHubActionsProvider::interpret_gh_output(CommandOutcome::NotFound);
    match r {
        Err(SecretSpecError::ProviderOperationFailed(m)) => {
            assert!(m.starts_with("GitHub CLI (gh) is not installed.\n\nTo install it:"));
            assert!(m.ends_with("run 'gh auth login' to authenticate."));
        }
        _ => panic!("unexpected step"),
    }
}

#[test]
fn gh_output_spawn_failure_is_io() {
    let r = GitHubActionsProvider::interpret_gh_output(CommandOutcome::SpawnFailed("denied".to_string()));
    assert_eq!(r, Err(SecretSpecError::Io("denied".to_string())));
}

#[test]
fn gh_output_auth_complaints() {
    let r = GitHubActionsProvider::interpret_gh_output(fail("You are not logged into any GitHub hosts."));
    assert_eq!(r, Err(failed(AUTH_REQUIRED)));
    let r = GitHubActionsProvider::interpret_gh_output(fail("authentication failed"));
    assert_eq!(r, Err(failed(AUTH_REQUIRED)));
}

#[test]
fn gh_output_other_failure_is_stderr() {
    let r = GitHubActionsProvider::interpret_gh_output(fail("HTTP 404: Not Found"));
    assert_eq!(r, Err(failed("HTTP 404: Not Found")));
}

#[test]
fn gh_output_lossy_stderr() {
    let o = CommandOutcome::Exited { success: false, stdout: vec![], stderr: vec![b'x', 0xff] };
    assert_eq!(GitHubActionsProvider::interpret_gh_output(o), Err(failed("x\u{fffd}")));
}

#[test]
fn gh_output_invalid_utf8_stdout() {
    let o = CommandOutcome::Exited { success: true, stdout: vec![0xff], stderr: vec![] };
    let expected = String::from_utf8(vec![0xff]).unwrap_err().to_string();
    assert_eq!(GitHubActionsProvider::interpret_gh_output(o), Err(failed(&expected)));
}

#[test]
fn is_authenticated_cases() {
    let p = provider(None);
    assert_eq!(p.is_authenticated(Ok("Logged in".to_string())), Ok(true));
    assert_eq!(p.is_authenticated(Err(failed(AUTH_REQUIRED))), Ok(false));
    assert_eq!(p.is_authenticated(Err(failed("you are not logged in"))), Ok(false));
    assert_eq!(p.is_authenticated(Err(failed("boom"))), Err(failed("boom")));
    assert_eq!(
        p.is_authenticated(Err(SecretSpecError::Io("authentication".to_string()))),
        Err(SecretSpecError::Io("authentication".to_string()))
    );
}

fn run_args(a: GitHubGetAction) -> Vec<String> {
    match a {
        GitHubGetAction::CheckAuth(args) | GitHubGetAction::ListSecrets(args) => args,
        _ => panic!("unexpected step"),
    }
}

fn set_run_args(a: GitHubSetAction) -> Vec<String> {
    match a {
        GitHubSetAction::CheckAuth(args) | GitHubSetAction::StoreSecret(args) => args,
        _ => panic!("unexpected step"),
    }
}

#[test]
fn get_starts_with_auth_status() {
    let p = provider(None);
    assert_eq!(run_args(p.get("my-app", "API_KEY", "default", GitHubGetEvent::Start)), strings(&["auth", "status"]));
    let p = provider(Some("enterprise"));
    assert_eq!(
        run_args(p.get("my-app", "API_KEY", "default", GitHubGetEvent::Start)),
        strings(&["--hostname", "enterprise", "auth", "status"])
    );
}

#[test]
fn get_lists_repository_secrets() {
    let p = provider(None);
    let a = p.get("my-app", "API_KEY", "default", GitHubGetEvent::AuthChecked(ok("")));
    assert_eq!(run_args(a), strings(&["secret", "list", "--repo", "myorg/myrepo"]));
}

#[test]
fn get_lists_environment_secrets() {
    let p = provider(Some("acct"));
    let a = p.get("my-app", "API_KEY", "production", GitHubGetEvent::AuthChecked(ok("")));
    assert_eq!(
        run_args(a),
        strings(&["--hostname", "acct", "secret", "list", "--repo", "myorg/myrepo", "--env=production"])
    );
}

#[test]
fn get_requires_sign_in() {
    let p = provider(None);
    match p.get("my-app", "K", "default", GitHubGetEvent::AuthChecked(fail("not logged in"))) {
        GitHubGetAction::Finish(r) => assert_eq!(r, Err(failed(AUTH_REQUIRED))),
        _ => panic!("unexpected step"),
    }
    match p.get("my-app", "K", "default", GitHubGetEvent::AuthChecked(CommandOutcome::SpawnFailed("x".to_string()))) {
        GitHubGetAction::Finish(r) => assert_eq!(r, Err(SecretSpecError::Io("x".to_string()))),
        _ => panic!("unexpected step"),
    }
}

#[test]
fn get_answers_with_placeholder() {
    let p = provider(None);
    let listing = ok("NAME\tUPDATED\nAPI_KEY\tabout 1 day ago\n");
    match p.get("my-app", "API_KEY", "default", GitHubGetEvent::Listed(listing)) {
        GitHubGetAction::Finish(r) => assert_eq!(r, Ok(Some("***ENCRYPTED***".to_string()))),
        _ => panic!("unexpected step"),
    }
}

#[test]
fn get_missing_secret_is_none() {
    let p = provider(None);
    match p.get("my-app", "OTHER", "default", GitHubGetEvent::Listed(ok("API_KEY\tnow\n"))) {
        GitHubGetAction::Finish(r) => assert_eq!(r, Ok(None)),
        _ => panic!("unexpected step"),
    }
}

#[test]
fn get_failed_listing_is_none() {
    let p = provider(None);
    match p.get("my-app", "API_KEY", "staging", GitHubGetEvent::Listed(fail("environment not found"))) {
        GitHubGetAction::Finish(r) => assert_eq!(r, Ok(None)),
        _ => panic!("unexpected step"),
    }
}

#[test]
fn set_stores_with_body() {
    let p = provider(None);
    assert_eq!(set_run_args(p.set("my-app", "K", "v", "default", GitHubSetEvent::Start)), strings(&["auth", "status"]));
    let a = p.set("my-app", "API_KEY", "s3cret", "default", GitHubSetEvent::AuthChecked(ok("")));
    assert_eq!(
        set_run_args(a),
        strings(&["secret", "set", "API_KEY", "--repo", "myorg/myrepo", "--body", "s3cret"])
    );
    let p = provider(Some("acct"));
    let a = p.set("my-app", "DB", "pw", "production", GitHubSetEvent::AuthChecked(ok("")));
    assert_eq!(
        set_run_args(a),
        strings(&["--hostname", "acct", "secret", "set", "DB", "--repo", "myorg/myrepo", "--env=production", "--body", "pw"])
    );
}

#[test]
fn set_requires_sign_in() {
    let p = provider(None);
    match p.set("my-app", "K", "v", "default", GitHubSetEvent::AuthChecked(fail("authentication required"))) {
        GitHubSetAction::Finish(r) => assert_eq!(r, Err(failed(AUTH_REQUIRED))),
        _ => panic!("unexpected step"),
    }
}

#[test]
fn set_reports_outcome() {
    let p = provider(None);
    match p.set("my-app", "K", "v", "default", GitHubSetEvent::Stored(ok(""))) {
        GitHubSetAction::Finish(r) => assert_eq!(r, Ok(())),
        _ => panic!("unexpected step"),
    }
    match p.set("my-app", "K", "v", "default", GitHubSetEvent::Stored(fail("HTTP 403"))) {
        GitHubSetAction::Finish(r) => assert_eq!(r, Err(failed("Failed to set secret 'K': HTTP 403"))),
        _ => panic!("unexpected step"),
    }
    match p.set("my-app", "K", "v", "default", GitHubSetEvent::Stored(CommandOutcome::NotFound)) {
        GitHubSetAction::Finish(r) => {
            assert_eq!(r, Err(failed("GitHub CLI (gh) is not installed. Please install it first.")))
        }
        _ => panic!("unexpected step"),
    }
}

#[test]
fn default_provider_lists_empty_repo() {
    let p = GitHubActionsProvider::default();
    let a = p.get("my-app", "K", "default", GitHubGetEvent::AuthChecked(ok("")));
    assert_eq!(run_args(a), strings(&["secret", "list", "--repo", ""]));
}
