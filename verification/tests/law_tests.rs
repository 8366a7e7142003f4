use secretspec::command::CommandOutcome;
use secretspec::github_actions::{
    GitHubActionsConfig, GitHubActionsProvider, GitHubGetAction, GitHubGetEvent, GitHubSetAction,
    GitHubSetEvent,
};
use secretspec::url_parts::UrlParts;
use secretspec::zuplo::{ZuploConfig, ZuploProvider, ZuploSetAction, ZuploSetEvent};

fn parts(scheme: &str) -> UrlParts {
    UrlParts {
        scheme: scheme.to_string(),
        host: Some("acme".to_string()),
        username: "bot".to_string(),
        path: "/api".to_string(),
    }
}

fn signed_in() -> CommandOutcome {
    CommandOutcome::Exited { success: true, stdout: b"Logged in".to_vec(), stderr: vec![] }
}

#[test]
fn scheme_aliases_agree_on_example() {
    let a = GitHubActionsConfig::try_from(&parts("ghactions")).unwrap();
    let b = GitHubActionsConfig::try_from(&parts("github-actions")).unwrap();
    assert_eq!(a, b);
    assert_eq!(a.repo, "acme/api");
    assert_eq!(a.account, Some("bot".to_string()));
}

#[test]
fn read_and_write_share_target_on_example() {
    let p = GitHubActionsProvider::new(GitHubActionsConfig {
        repo: "acme/api".to_string(),
        account: Some("bot".to_string()),
    });
    let read = match p.get("my-app", "K", "staging", GitHubGetEvent::AuthChecked(signed_in())) {
        GitHubGetAction::ListSecrets(a) => a,
        _ => panic!("unexpected step"),
    };
    let write = match p.set("my-app", "K", "v", "staging", GitHubSetEvent::AuthChecked(signed_in())) {
        GitHubSetAction::StoreSecret(a) => a,
        _ => panic!("unexpected step"),
    };
    assert_eq!(read[..2], write[..2]);
    assert_eq!(read[4..7], write[5..8]);
    assert_eq!(read[6], "--env=staging");
}

#[test]
fn read_never_reveals_value_on_example() {
    let p = GitHubActionsProvider::new(GitHubActionsConfig { repo: "r".to_string(), account: None });
    let listing = CommandOutcome::Exited { success: true, stdout: b"TOKEN now\n".to_vec(), stderr: vec![] };
    match p.get("my-app", "TOKEN", "default", GitHubGetEvent::Listed(listing)) {
        GitHubGetAction::Finish(Ok(Some(v))) => assert_eq!(v, "***ENCRYPTED***"),
        _ => panic!("unexpected step"),
    }
}

#[test]
fn create_and_update_share_target_on_example() {
    let p = ZuploProvider::new(ZuploConfig { project: Some("api".to_string()), branch: Some("main".to_string()) });
    let create = match p.set("my-app", "K", "v", "default", ZuploSetEvent::Start) {
        ZuploSetAction::Create(a) => a,
        _ => panic!("unexpected step"),
    };
    let exists = CommandOutcome::Exited { success: false, stdout: vec![], stderr: b"already exists".to_vec() };
    let update = match p.set("my-app", "K", "v", "default", ZuploSetEvent::Created(exists)) {
        ZuploSetAction::Update(a) => a,
        _ => panic!("unexpected step"),
    };
    assert_eq!(create[8..], update[6..]);
}

#[test]
fn sign_in_failure_is_not_retried_on_example() {
    let p = ZuploProvider::new(ZuploConfig::default());
    let o = CommandOutcome::Exited { success: false, stdout: vec![], stderr: b"authentication: duplicate".to_vec() };
    match p.set("my-app", "K", "v", "default", ZuploSetEvent::Created(o)) {
        ZuploSetAction::Finish(Err(_)) => {}
        _ => panic!("unexpected step"),
    }
}

#[test]
fn profile_selects_branch_on_example() {
    let p = ZuploProvider::new(ZuploConfig { project: None, branch: Some("main".to_string()) });
    assert_eq!(p.build_args(vec![], "qa"), vec!["--branch".to_string(), "qa".to_string()]);
    assert_eq!(p.build_args(vec![], "default"), vec!["--branch".to_string(), "main".to_string()]);
}

#[test]
fn project_is_ignored_on_example() {
    let p = GitHubActionsProvider::new(GitHubActionsConfig { repo: "r".to_string(), account: None });
    let a = match p.get("one", "K", "default", GitHubGetEvent::AuthChecked(signed_in())) {
        GitHubGetAction::ListSecrets(a) => a,
        _ => panic!("unexpected step"),
    };
    let b = match p.get("two", "K", "default", GitHubGetEvent::AuthChecked(signed_in())) {
        GitHubGetAction::ListSecrets(a) => a,
        _ => panic!("unexpected step"),
    };
    assert_eq!(a, b);
}

#[test]
fn commands_run_as_account_on_example() {
    let p = GitHubActionsProvider::new(GitHubActionsConfig { repo: "r".to_string(), account: Some("acct".to_string()) });
    let args = p.command_line(vec!["auth".to_string(), "status".to_string()]);
    assert_eq!(args, vec!["--hostname", "acct", "auth", "status"]);
}
