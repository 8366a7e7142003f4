use secretspec::command::CommandOutcome;
use secretspec::error::SecretSpecError;
use secretspec::zuplo::{ZuploConfig, ZuploProvider, ZuploSetAction, ZuploSetEvent};

fn provider(project: Option<&str>, branch: Option<&str>) -> ZuploProvider {
    ZuploProvider::new(ZuploConfig {
        project: project.map(|s| s.to_string()),
        branch: branch.map(|s| s.to_string()),
    })
}

fn ok(stdout: &str) -> CommandOutcome {
    CommandOutcome::Exited { success: true, stdout: stdout.as_bytes().to_vec(), stderr: vec![] }
}

fn fail(stderr: &str) -> CommandOutcome {
    CommandOutcome::Exited { success: false, stdout: vec![], stderr: stderr.as_bytes().to_vec() }
}

fn strings(v: &[&str]) -> Vec<String> {
    v.iter().map(|s| s.to_string()).collect()
}

fn failed(msg: &str) -> SecretSpecError {
    SecretSpecError::ProviderOperationFailed(msg.to_string())
}

fn run_args(a: ZuploSetAction) -> Vec<String> {
    match a {
        ZuploSetAction::Create(args) | ZuploSetAction::Update(args) => args,
        _ => panic!("unexpected step"),
    }
}

fn finished(a: ZuploSetAction) -> Result<(), SecretSpecError> {
    match a {
        ZuploSetAction::Finish(r) => r,
        _ => panic!("unexpected step"),
    }
}

#[test]
fn zuplo_provider_name() {
    assert_eq!(provider(None, None).name(), "zuplo");
}

#[test]
fn build_args_without_config() {
    let p = provider(None, None);
    assert_eq!(p.build_args(strings(&["a"]), "default"), strings(&["a"]));
    assert_eq!(p.build_args(strings(&["a"]), "prod"), strings(&["a", "--branch", "prod"]));
}

#[test]
fn build_args_with_project_and_branch() {
    let p = provider(Some("my-api"), Some("main"));
    assert_eq!(
        p.build_args(strings(&["variable", "create"]), "default"),
        strings(&["variable", "create", "--project", "my-api", "--branch", "main"])
    );
    assert_eq!(
        p.build_args(strings(&["variable", "create"]), "production"),
        strings(&["variable", "create", "--project", "my-api", "--branch", "production"])
    );
}

#[test]
fn build_args_branch_without_project() {
    let p = provider(None, Some("dev"));
    assert_eq!(p.build_args(vec![], "default"), strings(&["--branch", "dev"]));
}

#[test]
fn zuplo_get_is_refused() {
    let p = provider(Some("x"), None);
    match p.get("proj", "KEY", "default") {
        Err(SecretSpecError::ProviderOperationFailed(m)) => {
            assert!(m.starts_with("Zuplo provider does not support reading variables."));
            assert!(m.ends_with("Use: secretspec export zuplo://your-project/branch"));
        }
        _ => panic!("unexpected step"),
    }
}

#[test]
fn zuplo_output_cases() {
    assert_eq!(ZuploProvider::interpret_zuplo_output(ok("done")), Ok("done".to_string()));
    assert_eq!(
        ZuploProvider::interpret_zuplo_output(fail("Please login")),
        Err(failed("Zuplo authentication required. Please run 'zuplo login' first."))
    );
    assert_eq!(ZuploProvider::interpret_zuplo_output(fail("bad request")), Err(failed("bad request")));
    match ZuploProvider::interpret_zuplo_output(CommandOutcome::NotFound) {
        Err(SecretSpecError::ProviderOperationFailed(m)) => {
            assert!(m.starts_with("Zuplo CLI is not installed."))
        }
        _ => panic!("unexpected step"),
    }
}

#[test]
fn set_creates_secret_variable() {
    let p = provider(Some("my-api"), Some("main"));
    let a = p.set("my-app", "API_KEY", "v1", "default", ZuploSetEvent::Start);
    assert_eq!(
        run_args(a),
        strings(&[
            "variable", "create", "--name", "API_KEY", "--value", "v1", "--is-secret", "true",
            "--project", "my-api", "--branch", "main",
        ])
    );
}

#[test]
fn set_done_after_create() {
    let p = provider(None, None);
    assert_eq!(finished(p.set("my-app", "K", "v", "default", ZuploSetEvent::Created(ok("")))), Ok(()));
}

#[test]
fn set_updates_existing_variable() {
    let p = provider(Some("my-api"), None);
    let a = p.set("my-app", "K", "v2", "production", ZuploSetEvent::Created(fail("variable already exists")));
    assert_eq!(
        run_args(a),
        strings(&["variable", "update", "--name", "K", "--value", "v2", "--project", "my-api", "--branch", "production"])
    );
    let a = p.set("my-app", "K", "v2", "default", ZuploSetEvent::Created(fail("duplicate key")));
    assert_eq!(run_args(a), strings(&["variable", "update", "--name", "K", "--value", "v2", "--project", "my-api"]));
}

#[test]
fn set_reports_other_create_failures() {
    let p = provider(None, None);
    assert_eq!(finished(p.set("my-app", "K", "v", "default", ZuploSetEvent::Created(fail("quota")))), Err(failed("quota")));
    assert_eq!(
        finished(p.set("my-app", "K", "v", "default", ZuploSetEvent::Created(fail("not logged in; variable already exists")))),
        Err(failed("Zuplo authentication required. Please run 'zuplo login' first."))
    );
    assert_eq!(
        finished(p.set("my-app", "K", "v", "default", ZuploSetEvent::Created(CommandOutcome::SpawnFailed("e".to_string())))),
        Err(SecretSpecError::Io("e".to_string()))
    );
}

#[test]
fn set_reports_update_outcome() {
    let p = provider(None, None);
    assert_eq!(finished(p.set("my-app", "K", "v", "default", ZuploSetEvent::Updated(ok("")))), Ok(()));
    assert_eq!(finished(p.set("my-app", "K", "v", "default", ZuploSetEvent::Updated(fail("nope")))), Err(failed("nope")));
}

#[test]
fn default_provider_has_no_target() {
    let p = ZuploProvider::default();
    assert_eq!(p.build_args(strings(&["x"]), "default"), strings(&["x"]));
}
