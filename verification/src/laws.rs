//! Properties that relate the providers' operations to one another.

use vstd::prelude::*;
use vstd::string::*;

use crate::command::{utf8_lossy, CommandOutcome};
use crate::error::ErrorView;
use crate::github_actions::{
    authenticated_from, encrypted_placeholder, env_flag, gh_auth_required_message,
    gh_command_line, gh_command_result, github_config_from, github_get_step, github_set_step,
    mentions_auth_failure, secret_list_args, secret_set_args, GitHubActionsConfigView,
    GitHubGetActionView, GitHubGetEvent, GitHubSetActionView, GitHubSetEvent, is_listing_header,
    line_lists_secret, listing_names, gh_not_installed_message, gh_set_result, repo_of,
};
use crate::text::{contains_seq, first_token, line_at, starts_line, trim_leading_slashes};
use crate::url_parts::UrlPartsView;
use crate::zuplo::{mentions_existing_variable, zuplo_auth_required_message, zuplo_command_result, zuplo_mentions_auth_failure, zuplo_set_step, ZuploSetActionView, ZuploSetEvent, create_args, target_flags, update_args, zuplo_config_from, ZuploConfigView};

verus! {

/// When `gh` fails with a complaint about a missing sign-in, the check for a
/// signed-in user answers "not signed in" rather than failing.
pub proof fn law_sign_in_complaint_means_not_signed_in(outcome: CommandOutcome)
    requires
        outcome matches CommandOutcome::Exited { success, stdout: _, stderr } && !success
            && mentions_auth_failure(utf8_lossy(stderr@)),
    ensures
        authenticated_from(gh_command_result(outcome)) == Ok::<bool, ErrorView>(false),
{
    let m = gh_auth_required_message();
    reveal_strlit("GitHub authentication required. Please run 'gh auth login' first.");
    reveal_strlit("authentication");
    assert(m.subrange(7, 7 + "authentication"@.len() as int) =~= "authentication"@);
    assert(contains_seq(m, "authentication"@));
}

/// The two schemes of the GitHub Actions provider, `ghactions` and
/// `github-actions`, describe the same configuration.
pub proof fn law_github_scheme_aliases_agree(a: UrlPartsView, b: UrlPartsView)
    requires
        a.scheme == "ghactions"@,
        b.scheme == "github-actions"@,
        a.host == b.host,
        a.username == b.username,
        a.path == b.path,
    ensures
        github_config_from(a) == github_config_from(b),
{
}

/// A GitHub Actions configuration read from a URL always names a repository,
/// and an account only where the URL carries a user name.
pub proof fn law_github_config_names_repository(url: UrlPartsView)
    ensures
        github_config_from(url) matches Ok(c) ==> c.repo.len() > 0 && (c.account matches Some(
            a,
        ) ==> a == url.username && a.len() > 0),
{
}

/// A Zuplo configuration is read from every URL whose scheme is `zuplo` and
/// from no other; a branch is only ever read together with a project.
pub proof fn law_zuplo_config_accepts_its_scheme(url: UrlPartsView)
    ensures
        zuplo_config_from(url) is Ok <==> url.scheme == "zuplo"@,
        zuplo_config_from(url) matches Ok(c) ==> (c.branch is Some ==> c.project is Some),
{
}

/// A read and a write of the same profile address the same repository and
/// the same environment, as the same account: once signed in, the listing
/// of a read and the storing of a write carry the same `--hostname`,
/// `--repo` and `--env` arguments.
pub proof fn law_read_and_write_share_target(
    c: GitHubActionsConfigView,
    project: Seq<char>,
    key: Seq<char>,
    value: Seq<char>,
    profile: Seq<char>,
    status: CommandOutcome,
)
    requires
        authenticated_from(gh_command_result(status)) == Ok::<bool, ErrorView>(true),
    ensures
        ({
            let target = seq!["--repo"@, c.repo] + env_flag(profile);
            &&& github_get_step(c, project, key, profile, GitHubGetEvent::AuthChecked(status))
                == GitHubGetActionView::ListSecrets(
                gh_command_line(c.account, seq!["secret"@, "list"@] + target),
            )
            &&& github_set_step(
                c,
                project,
                key,
                value,
                profile,
                GitHubSetEvent::AuthChecked(status),
            ) == GitHubSetActionView::StoreSecret(
                gh_command_line(
                    c.account,
                    seq!["secret"@, "set"@, key] + target + seq!["--body"@, value],
                ),
            )
        }),
{
    let target = seq!["--repo"@, c.repo] + env_flag(profile);
    assert(secret_list_args(c.repo, profile) =~= seq!["secret"@, "list"@] + target);
    assert(secret_set_args(key, c.repo, profile, value) =~= seq!["secret"@, "set"@, key] + target
        + seq!["--body"@, value]);
}

/// Every `gh` command that a read or a write asks for runs as the configured
/// account: its arguments begin with `--hostname <account>`.
pub proof fn law_commands_run_as_account(
    c: GitHubActionsConfigView,
    project: Seq<char>,
    key: Seq<char>,
    value: Seq<char>,
    profile: Seq<char>,
    get_event: GitHubGetEvent,
    set_event: GitHubSetEvent,
)
    requires
        c.account is Some,
    ensures
        ({
            let head = seq!["--hostname"@, c.account.unwrap()];
            &&& match github_get_step(c, project, key, profile, get_event) {
                GitHubGetActionView::CheckAuth(args) => args.take(2) == head,
                GitHubGetActionView::ListSecrets(args) => args.take(2) == head,
                GitHubGetActionView::Finish(_) => true,
            }
            &&& match github_set_step(c, project, key, value, profile, set_event) {
                GitHubSetActionView::CheckAuth(args) => args.take(2) == head,
                GitHubSetActionView::StoreSecret(args) => args.take(2) == head,
                GitHubSetActionView::Finish(_) => true,
            }
        }),
{
    let head = seq!["--hostname"@, c.account.unwrap()];
    assert forall|rest: Seq<Seq<char>>| #[trigger] (head + rest).take(2) == head by {
        assert((head + rest).take(2) =~= head);
    }
}

/// A read never hands out a secret's value, and reports a secret only where
/// the listing names it: a hit is the placeholder `***ENCRYPTED***`, and the
/// output of `gh secret list` has a line, other than its `NAME` header, whose
/// first word is the key.
pub proof fn law_read_reports_only_listed_names(
    c: GitHubActionsConfigView,
    project: Seq<char>,
    key: Seq<char>,
    profile: Seq<char>,
    event: GitHubGetEvent,
)
    ensures
        github_get_step(c, project, key, profile, event) matches GitHubGetActionView::Finish(
            Ok(Some(v)),
        ) ==> {
            &&& v == encrypted_placeholder()
            &&& event matches GitHubGetEvent::Listed(o)
            &&& gh_command_result(o) matches Ok(out)
            &&& exists|i: int|
                0 <= i <= out.len() && starts_line(out, i) && !is_listing_header(out, i)
                    && #[trigger] first_token(line_at(out, i)) == Some(key)
        },
{
    if github_get_step(c, project, key, profile, event) matches GitHubGetActionView::Finish(
        Ok(Some(v)),
    ) {
        if let GitHubGetEvent::Listed(o) = event {
            if let Ok(out) = gh_command_result(o) {
                assert(listing_names(out, key));
                let i = choose|i: int|
                    0 <= i <= out.len() && starts_line(out, i) && #[trigger] line_lists_secret(
                        out,
                        i,
                        key,
                    );
                assert(first_token(line_at(out, i)) == Some(key));
            }
        }
    }
}

/// A read finds every secret that the listing names: where the output of
/// `gh secret list` has a line, other than its `NAME` header, whose first
/// word is the key, the read answers with the placeholder.
pub proof fn law_read_finds_every_listed_secret(
    c: GitHubActionsConfigView,
    project: Seq<char>,
    key: Seq<char>,
    profile: Seq<char>,
    listing: CommandOutcome,
    i: int,
)
    requires
        gh_command_result(listing) is Ok,
        0 <= i <= gh_command_result(listing)->Ok_0.len(),
        starts_line(gh_command_result(listing)->Ok_0, i),
        !is_listing_header(gh_command_result(listing)->Ok_0, i),
        first_token(line_at(gh_command_result(listing)->Ok_0, i)) == Some(key),
    ensures
        github_get_step(c, project, key, profile, GitHubGetEvent::Listed(listing))
            == GitHubGetActionView::Finish(Ok(Some(encrypted_placeholder()))),
{
    let out = gh_command_result(listing)->Ok_0;
    assert(line_lists_secret(out, i, key));
    assert(listing_names(out, key));
}

/// The project name plays no part in the GitHub Actions provider's reads and
/// writes, nor in the Zuplo provider's writes: the same events give the same
/// steps, whatever project is named.
pub proof fn law_project_is_ignored(
    gc: GitHubActionsConfigView,
    zc: ZuploConfigView,
    p1: Seq<char>,
    p2: Seq<char>,
    key: Seq<char>,
    value: Seq<char>,
    profile: Seq<char>,
    get_event: GitHubGetEvent,
    set_event: GitHubSetEvent,
    zuplo_event: ZuploSetEvent,
)
    ensures
        github_get_step(gc, p1, key, profile, get_event) == github_get_step(
            gc,
            p2,
            key,
            profile,
            get_event,
        ),
        github_set_step(gc, p1, key, value, profile, set_event) == github_set_step(
            gc,
            p2,
            key,
            value,
            profile,
            set_event,
        ),
        zuplo_set_step(zc, p1, key, value, profile, zuplo_event) == zuplo_set_step(
            zc,
            p2,
            key,
            value,
            profile,
            zuplo_event,
        ),
{
}

/// Creating and updating a Zuplo variable address the same project and
/// branch: both end with the same target flags.
pub proof fn law_create_and_update_share_target(
    c: ZuploConfigView,
    key: Seq<char>,
    value: Seq<char>,
    profile: Seq<char>,
)
    ensures
        create_args(c, key, value, profile).skip(8) == target_flags(c, profile),
        update_args(c, key, value, profile).skip(6) == target_flags(c, profile),
{
    assert(create_args(c, key, value, profile).skip(8) =~= target_flags(c, profile));
    assert(update_args(c, key, value, profile).skip(6) =~= target_flags(c, profile));
}

/// A profile other than `default` selects the Zuplo branch of that name,
/// whatever branch the configuration holds; the `default` profile keeps the
/// configured branch.
pub proof fn law_profile_selects_branch(c: ZuploConfigView, profile: Seq<char>)
    ensures
        ({
            let project_len: int = if c.project is Some { 2 } else { 0 };
            &&& profile != "default"@ ==> target_flags(c, profile).skip(project_len) == seq![
                "--branch"@,
                profile,
            ]
            &&& profile == "default"@ ==> target_flags(c, profile).skip(project_len) == match c.branch {
                Some(b) => seq!["--branch"@, b],
                None => Seq::<Seq<char>>::empty(),
            }
        }),
{
    let project_len: int = if c.project is Some { 2 } else { 0 };
    assert(target_flags(c, profile).skip(project_len) =~= (if profile != "default"@ {
        seq!["--branch"@, profile]
    } else {
        match c.branch {
            Some(b) => seq!["--branch"@, b],
            None => Seq::<Seq<char>>::empty(),
        }
    }));
}

/// Some index at or after `i` holds `a` followed by `b`.
pub open spec fn has_pair_from(s: Seq<char>, a: char, b: char, i: int) -> bool
    decreases s.len() - i,
{
    if i < 0 || i + 1 >= s.len() {
        false
    } else {
        (s[i] == a && s[i + 1] == b) || has_pair_from(s, a, b, i + 1)
    }
}

/// Where no index from `i` on holds `a` followed by `b`, no run starting there
/// that begins with `a` `b` occurs.
pub proof fn lemma_no_pair(s: Seq<char>, a: char, b: char, i: int, needle: Seq<char>)
    requires
        0 <= i,
        !has_pair_from(s, a, b, i),
        needle.len() >= 2,
        needle[0] == a,
        needle[1] == b,
    ensures
        forall|j: int| i <= j && j + needle.len() <= s.len() ==> #[trigger] s.subrange(j, j + needle.len()) != needle,
    decreases s.len() - i,
{
    if i + 1 < s.len() {
        lemma_no_pair(s, a, b, i + 1, needle);
        assert forall|j: int| i <= j && j + needle.len() <= s.len() implies #[trigger] s.subrange(j, j + needle.len()) != needle by {
            if j == i {
                assert(s.subrange(j, j + needle.len())[0] == s[i]);
                assert(s.subrange(j, j + needle.len())[1] == s[i + 1]);
            }
        }
    }
}

/// A Zuplo variable whose creation fails for want of a sign-in is not then
/// updated: the write ends with the sign-in error.
pub proof fn law_sign_in_failure_is_not_retried(
    c: ZuploConfigView,
    project: Seq<char>,
    key: Seq<char>,
    value: Seq<char>,
    profile: Seq<char>,
    outcome: CommandOutcome,
)
    requires
        outcome matches CommandOutcome::Exited { success, stdout: _, stderr } && !success
            && zuplo_mentions_auth_failure(utf8_lossy(stderr@)),
    ensures
        zuplo_set_step(c, project, key, value, profile, ZuploSetEvent::Created(outcome))
            == ZuploSetActionView::Finish(
            Err(ErrorView::ProviderOperationFailed(zuplo_auth_required_message())),
        ),
{
    let m = zuplo_auth_required_message();
    reveal_strlit("Zuplo authentication required. Please run 'zuplo login' first.");
    reveal_strlit("already exists");
    reveal_strlit("duplicate");
    assert(!has_pair_from(m, 'a', 'l', 0)) by {
        reveal_with_fuel(has_pair_from, 70);
    }
    assert(!has_pair_from(m, 'd', 'u', 0)) by {
        reveal_with_fuel(has_pair_from, 70);
    }
    lemma_no_pair(m, 'a', 'l', 0, "already exists"@);
    lemma_no_pair(m, 'd', 'u', 0, "duplicate"@);
    assert(!mentions_existing_variable(m));
}

/// Some index at or after `i` starts the four characters of `q`.
pub open spec fn has_quad_from(s: Seq<char>, q: (char, char, char, char), i: int) -> bool
    decreases s.len() - i,
{
    if i < 0 || i + 4 > s.len() {
        false
    } else {
        (s[i] == q.0 && s[i + 1] == q.1 && s[i + 2] == q.2 && s[i + 3] == q.3)
            || has_quad_from(s, q, i + 1)
    }
}

/// Where no index from `i` on starts the four characters `q`, no occurrence of
/// a `needle` that holds `q` at offset `k` sits at an index `j` with
/// `j + k >= i`.
pub proof fn lemma_no_quad(s: Seq<char>, q: (char, char, char, char), i: int, needle: Seq<char>, k: int)
    requires
        0 <= i,
        0 <= k,
        k + 4 <= needle.len(),
        !has_quad_from(s, q, i),
        needle[k] == q.0 && needle[k + 1] == q.1 && needle[k + 2] == q.2 && needle[k + 3] == q.3,
    ensures
        forall|j: int|
            0 <= j && j + k >= i && j + needle.len() <= s.len() ==> #[trigger] s.subrange(
                j,
                j + needle.len(),
            ) != needle,
    decreases s.len() - i,
{
    if i + 4 <= s.len() {
        lemma_no_quad(s, q, i + 1, needle, k);
        assert forall|j: int|
            0 <= j && j + k >= i && j + needle.len() <= s.len() implies #[trigger] s.subrange(
            j,
            j + needle.len(),
        ) != needle by {
            if j + k == i {
                let w = s.subrange(j, j + needle.len());
                assert(w[k] == s[i] && w[k + 1] == s[i + 1] && w[k + 2] == s[i + 2] && w[k + 3]
                    == s[i + 3]);
            }
        }
    }
}

/// The message for a missing `gh` speaks of no missing sign-in, so a missing
/// `gh` is never taken for a user who is not signed in.
pub proof fn lemma_not_installed_is_no_sign_in_complaint()
    ensures
        !mentions_auth_failure(gh_not_installed_message()),
{
    let m = gh_not_installed_message();
    reveal_strlit(
        "GitHub CLI (gh) is not installed.\n\nTo install it:\n  - macOS: brew install gh\n  - Linux: See https://github.com/cli/cli/blob/trunk/docs/install_linux.md\n  - Windows: See https://github.com/cli/cli/blob/trunk/docs/install_windows.md\n\nAfter installation, run 'gh auth login' to authenticate.",
    );
    reveal_strlit("not logged");
    reveal_strlit("authentication");
    let q1 = ('t', ' ', 'l', 'o');
    let q2 = ('c', 'a', 't', 'i');
    assert(!has_quad_from(m, q1, 240)) by {
        reveal_with_fuel(has_quad_from, 70);
    }
    assert(!has_quad_from(m, q1, 180)) by {
        reveal_with_fuel(has_quad_from, 70);
    }
    assert(!has_quad_from(m, q1, 120)) by {
        reveal_with_fuel(has_quad_from, 70);
    }
    assert(!has_quad_from(m, q1, 60)) by {
        reveal_with_fuel(has_quad_from, 70);
    }
    assert(!has_quad_from(m, q1, 0)) by {
        reveal_with_fuel(has_quad_from, 70);
    }
    assert(!has_quad_from(m, q2, 240)) by {
        reveal_with_fuel(has_quad_from, 70);
    }
    assert(!has_quad_from(m, q2, 180)) by {
        reveal_with_fuel(has_quad_from, 70);
    }
    assert(!has_quad_from(m, q2, 120)) by {
        reveal_with_fuel(has_quad_from, 70);
    }
    assert(!has_quad_from(m, q2, 60)) by {
        reveal_with_fuel(has_quad_from, 70);
    }
    assert(!has_quad_from(m, q2, 0)) by {
        reveal_with_fuel(has_quad_from, 70);
    }
    lemma_no_quad(m, q1, 0, "not logged"@, 2);
    lemma_no_quad(m, q2, 0, "authentication"@, 8);
    assert(!contains_seq(m, "not logged"@));
    assert(!contains_seq(m, "authentication"@));
}

/// An error is a complaint about a missing sign-in: a provider failure whose
/// text speaks of it.
pub open spec fn is_sign_in_complaint(e: ErrorView) -> bool {
    e matches ErrorView::ProviderOperationFailed(m) && mentions_auth_failure(m)
}

/// When the sign-in check of a read cannot be made, the read fails with the
/// check's error: a missing `gh` is reported as such, a `gh` that cannot be
/// started as an I/O error, and any failure other than a sign-in complaint is
/// passed on unchanged. A sign-in check never ends a read successfully.
pub proof fn law_failed_sign_in_check_fails_the_read(
    c: GitHubActionsConfigView,
    project: Seq<char>,
    key: Seq<char>,
    profile: Seq<char>,
    o: CommandOutcome,
)
    ensures
        !(github_get_step(c, project, key, profile, GitHubGetEvent::AuthChecked(o)) matches GitHubGetActionView::Finish(Ok(_))),
        o is NotFound ==> github_get_step(c, project, key, profile, GitHubGetEvent::AuthChecked(o))
            == GitHubGetActionView::Finish(Err(ErrorView::ProviderOperationFailed(gh_not_installed_message()))),
        o matches CommandOutcome::SpawnFailed(m) ==> github_get_step(c, project, key, profile, GitHubGetEvent::AuthChecked(o))
            == GitHubGetActionView::Finish(Err(ErrorView::Io(m@))),
        gh_command_result(o) matches Err(e) ==> (!is_sign_in_complaint(e) ==> github_get_step(
            c,
            project,
            key,
            profile,
            GitHubGetEvent::AuthChecked(o),
        ) == GitHubGetActionView::Finish(Err(e))),
{
    lemma_not_installed_is_no_sign_in_complaint();
}

/// A read answers at all (found or not found) only once the secrets have
/// been listed: every successful end of a read follows a `Listed` event.
pub proof fn law_read_answers_only_after_listing(
    c: GitHubActionsConfigView,
    project: Seq<char>,
    key: Seq<char>,
    profile: Seq<char>,
    event: GitHubGetEvent,
)
    ensures
        github_get_step(c, project, key, profile, event) matches GitHubGetActionView::Finish(Ok(_))
            ==> event is Listed,
{
}

/// When the sign-in check of a write cannot be made, the write fails with the
/// check's error, as for a read; a sign-in check never ends a write
/// successfully.
pub proof fn law_failed_sign_in_check_fails_the_write(
    c: GitHubActionsConfigView,
    project: Seq<char>,
    key: Seq<char>,
    value: Seq<char>,
    profile: Seq<char>,
    o: CommandOutcome,
)
    ensures
        !(github_set_step(c, project, key, value, profile, GitHubSetEvent::AuthChecked(o)) matches GitHubSetActionView::Finish(Ok(_))),
        o is NotFound ==> github_set_step(c, project, key, value, profile, GitHubSetEvent::AuthChecked(o))
            == GitHubSetActionView::Finish(Err(ErrorView::ProviderOperationFailed(gh_not_installed_message()))),
        o matches CommandOutcome::SpawnFailed(m) ==> github_set_step(c, project, key, value, profile, GitHubSetEvent::AuthChecked(o))
            == GitHubSetActionView::Finish(Err(ErrorView::Io(m@))),
        gh_command_result(o) matches Err(e) ==> (!is_sign_in_complaint(e) ==> github_set_step(
            c,
            project,
            key,
            value,
            profile,
            GitHubSetEvent::AuthChecked(o),
        ) == GitHubSetActionView::Finish(Err(e))),
{
    lemma_not_installed_is_no_sign_in_complaint();
}

/// A write reports success only after `gh secret set` ran and exited with
/// success.
pub proof fn law_write_succeeds_only_after_storing(
    c: GitHubActionsConfigView,
    project: Seq<char>,
    key: Seq<char>,
    value: Seq<char>,
    profile: Seq<char>,
    event: GitHubSetEvent,
)
    ensures
        github_set_step(c, project, key, value, profile, event) matches GitHubSetActionView::Finish(Ok(_))
            ==> event matches GitHubSetEvent::Stored(CommandOutcome::Exited { success, stdout: _, stderr: _ }) && success,
{
}

/// Whatever the configuration, a Zuplo variable whose creation fails because
/// it exists already (and not for want of a sign-in) is then updated: the
/// write asks for `variable update --name <key> --value <value>` with the
/// same project and branch flags as the creation.
pub proof fn law_existing_variable_is_updated(
    c: ZuploConfigView,
    project: Seq<char>,
    key: Seq<char>,
    value: Seq<char>,
    profile: Seq<char>,
    outcome: CommandOutcome,
)
    requires
        outcome matches CommandOutcome::Exited { success, stdout: _, stderr } && !success
            && mentions_existing_variable(utf8_lossy(stderr@))
            && !zuplo_mentions_auth_failure(utf8_lossy(stderr@)),
    ensures
        zuplo_set_step(c, project, key, value, profile, ZuploSetEvent::Created(outcome))
            == ZuploSetActionView::Update(
            seq!["variable"@, "update"@, "--name"@, key, "--value"@, value] + target_flags(c, profile),
        ),
        create_args(c, key, value, profile).skip(8) == target_flags(c, profile),
{
    assert(create_args(c, key, value, profile).skip(8) =~= target_flags(c, profile));
}

/// A Zuplo write reports success only after a `zuplo` run (create or update)
/// exited with success.
pub proof fn law_zuplo_write_succeeds_only_after_success(
    c: ZuploConfigView,
    project: Seq<char>,
    key: Seq<char>,
    value: Seq<char>,
    profile: Seq<char>,
    event: ZuploSetEvent,
)
    ensures
        zuplo_set_step(c, project, key, value, profile, event) matches ZuploSetActionView::Finish(Ok(_))
            ==> match event {
                ZuploSetEvent::Created(o) => o matches CommandOutcome::Exited { success, stdout: _, stderr: _ } && success,
                ZuploSetEvent::Updated(o) => o matches CommandOutcome::Exited { success, stdout: _, stderr: _ } && success,
                ZuploSetEvent::Start => false,
            },
{
}

/// A Zuplo configuration read from a URL takes its project from the URL's
/// host (never empty, never `localhost`) and its branch from the path without
/// leading slashes: the branch is never empty, and a project with a non-empty
/// path always gets its branch.
pub proof fn law_zuplo_config_from_host_and_path(url: UrlPartsView)
    ensures
        zuplo_config_from(url) matches Ok(c) ==> {
            &&& c.branch matches Some(b) ==> b.len() > 0 && b == trim_leading_slashes(url.path)
                && c.project is Some
            &&& c.project matches Some(p) ==> url.host == Some(p) && p.len() > 0 && p != "localhost"@
            &&& (c.project is Some && trim_leading_slashes(url.path).len() > 0) ==> c.branch == Some(
                trim_leading_slashes(url.path),
            )
            &&& url.host matches Some(h) ==> (h.len() > 0 && h != "localhost"@ ==> c.project == Some(h))
        },
{
}

/// Reads and writes both begin by asking `gh auth status`, as the configured
/// account.
pub proof fn law_operations_begin_with_sign_in_check(
    c: GitHubActionsConfigView,
    project: Seq<char>,
    key: Seq<char>,
    value: Seq<char>,
    profile: Seq<char>,
)
    ensures
        github_get_step(c, project, key, profile, GitHubGetEvent::Start)
            == GitHubGetActionView::CheckAuth(gh_command_line(c.account, seq!["auth"@, "status"@])),
        github_set_step(c, project, key, value, profile, GitHubSetEvent::Start)
            == GitHubSetActionView::CheckAuth(gh_command_line(c.account, seq!["auth"@, "status"@])),
{
}

/// A sign-in check that `gh` answers with a complaint about a missing sign-in
/// ends a read or a write with the request to run `gh auth login`.
pub proof fn law_missing_sign_in_stops_operations(
    c: GitHubActionsConfigView,
    project: Seq<char>,
    key: Seq<char>,
    value: Seq<char>,
    profile: Seq<char>,
    o: CommandOutcome,
)
    requires
        gh_command_result(o) matches Err(e) && is_sign_in_complaint(e),
    ensures
        github_get_step(c, project, key, profile, GitHubGetEvent::AuthChecked(o))
            == GitHubGetActionView::Finish(
            Err(ErrorView::ProviderOperationFailed(gh_auth_required_message())),
        ),
        github_set_step(c, project, key, value, profile, GitHubSetEvent::AuthChecked(o))
            == GitHubSetActionView::Finish(
            Err(ErrorView::ProviderOperationFailed(gh_auth_required_message())),
        ),
{
}

/// A listing that fails means the secret does not exist (for instance, the
/// profile's environment does not exist): the read answers "not found".
pub proof fn law_failed_listing_means_absent(
    c: GitHubActionsConfigView,
    project: Seq<char>,
    key: Seq<char>,
    profile: Seq<char>,
    o: CommandOutcome,
)
    requires
        gh_command_result(o) is Err,
    ensures
        github_get_step(c, project, key, profile, GitHubGetEvent::Listed(o))
            == GitHubGetActionView::Finish(Ok(None)),
{
}

/// Once `gh secret set` has run, the write is over: it succeeds exactly when
/// the command exited with success, and otherwise fails, naming the key.
pub proof fn law_storing_ends_the_write(
    c: GitHubActionsConfigView,
    project: Seq<char>,
    key: Seq<char>,
    value: Seq<char>,
    profile: Seq<char>,
    o: CommandOutcome,
)
    ensures
        (github_set_step(c, project, key, value, profile, GitHubSetEvent::Stored(o))
            == GitHubSetActionView::Finish(Ok(()))) <==> (o matches CommandOutcome::Exited {
            success,
            stdout: _,
            stderr: _,
        } && success),
        o matches CommandOutcome::Exited { success, stdout: _, stderr } ==> (!success
            ==> github_set_step(c, project, key, value, profile, GitHubSetEvent::Stored(o))
            == GitHubSetActionView::Finish(
            Err(
                ErrorView::ProviderOperationFailed(
                    "Failed to set secret '"@ + key + "': "@ + utf8_lossy(stderr@),
                ),
            ),
        )),
{
}

/// A successful `gh` run yields exactly what it wrote to standard output,
/// where that is valid UTF-8.
pub proof fn law_successful_run_yields_output(stdout: Vec<u8>, stderr: Vec<u8>)
    requires
        vstd::utf8::valid_utf8(stdout@),
    ensures
        gh_command_result(CommandOutcome::Exited { success: true, stdout, stderr }) == Ok::<
            Seq<char>,
            ErrorView,
        >(vstd::utf8::decode_utf8(stdout@)),
        zuplo_command_result(CommandOutcome::Exited { success: true, stdout, stderr }) == Ok::<
            Seq<char>,
            ErrorView,
        >(vstd::utf8::decode_utf8(stdout@)),
{
}

/// A GitHub Actions configuration read from a URL with one of the provider's
/// schemes and a host other than `localhost` names the host, followed by
/// `/` and the path without leading slashes where that is not empty, and
/// carries the user name as its account where there is one.
pub proof fn law_github_config_from_host_and_path(url: UrlPartsView, h: Seq<char>)
    requires
        url.scheme == "ghactions"@ || url.scheme == "github-actions"@,
        url.host == Some(h),
        h != "localhost"@,
        h.len() > 0 || trim_leading_slashes(url.path).len() > 0,
    ensures
        github_config_from(url) matches Ok(c) && c.repo == (if trim_leading_slashes(url.path).len()
            == 0 {
            h
        } else {
            h + "/"@ + trim_leading_slashes(url.path)
        }) && (c.account is Some <==> url.username.len() > 0),
{
    let p = trim_leading_slashes(url.path);
    if p.len() > 0 {
        assert((h + "/"@ + p).len() > 0);
    }
}

/// A Zuplo write begins by creating the variable as a secret; a creation or
/// an update that succeeds ends the write successfully; any failure of the
/// creation other than an existing variable, and any failure of the update,
/// ends the write with that error.
pub proof fn law_zuplo_write_sequence(
    c: ZuploConfigView,
    project: Seq<char>,
    key: Seq<char>,
    value: Seq<char>,
    profile: Seq<char>,
    o: CommandOutcome,
)
    ensures
        zuplo_set_step(c, project, key, value, profile, ZuploSetEvent::Start)
            == ZuploSetActionView::Create(
            seq![
                "variable"@,
                "create"@,
                "--name"@,
                key,
                "--value"@,
                value,
                "--is-secret"@,
                "true"@,
            ] + target_flags(c, profile),
        ),
        zuplo_command_result(o) is Ok ==> zuplo_set_step(
            c,
            project,
            key,
            value,
            profile,
            ZuploSetEvent::Created(o),
        ) == ZuploSetActionView::Finish(Ok(())) && zuplo_set_step(
            c,
            project,
            key,
            value,
            profile,
            ZuploSetEvent::Updated(o),
        ) == ZuploSetActionView::Finish(Ok(())),
        zuplo_command_result(o) matches Err(e) ==> (zuplo_set_step(
            c,
            project,
            key,
            value,
            profile,
            ZuploSetEvent::Updated(o),
        ) == ZuploSetActionView::Finish(Err(e)) && (!(e matches ErrorView::ProviderOperationFailed(
            m,
        ) && mentions_existing_variable(m)) ==> zuplo_set_step(
            c,
            project,
            key,
            value,
            profile,
            ZuploSetEvent::Created(o),
        ) == ZuploSetActionView::Finish(Err(e)))),
{
}

/// A configured Zuplo project is always named, first, by `--project`.
pub proof fn law_project_flag_comes_first(c: ZuploConfigView, profile: Seq<char>)
    ensures
        c.project matches Some(p) ==> target_flags(c, profile).take(2) == seq!["--project"@, p],
        c.project is None ==> !target_flags(c, profile).contains("--project"@) || profile
            == "--project"@ || c.branch == Some("--project"@),
{
    if let Some(p) = c.project {
        assert(target_flags(c, profile).take(2) =~= seq!["--project"@, p]);
    }
    if c.project is None {
        if target_flags(c, profile).contains("--project"@) {
            let i = choose|i: int| 0 <= i < target_flags(c, profile).len() && target_flags(c, profile)[i] == "--project"@;
            reveal_strlit("--project");
            reveal_strlit("--branch");
            assert("--project"@ != "--branch"@) by {
                assert("--project"@[2] != "--branch"@[2]);
            }
        }
    }
}

} // verus!
