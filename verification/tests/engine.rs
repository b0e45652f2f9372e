use repo_sync::config::ProjectConfig;
use repo_sync::engine::Progress;
use repo_sync::engine::SyncEngine;
use repo_sync::engine::SyncEvent;
use repo_sync::engine::SyncRequest;
use repo_sync::error::GitError;
use repo_sync::error::ProjectError;
use repo_sync::git_utils::CommandOutcome;
use repo_sync::git_utils::GitCommand;

fn project(path: &str, branches: Option<Vec<&str>>) -> ProjectConfig {
    ProjectConfig {
        project: String::from("demo"),
        url: String::from("https://example.org/demo.git"),
        path: String::from(path),
        pull_branches: branches.map(|bs| bs.into_iter().map(String::from).collect()),
    }
}

fn ok_outcome(stdout: &str) -> CommandOutcome {
    CommandOutcome {
        succeeded: true,
        stdout: String::from(stdout),
        stderr: String::new(),
        description: String::from("git"),
    }
}

fn failed_outcome(stderr: &str) -> CommandOutcome {
    CommandOutcome {
        succeeded: false,
        stdout: String::new(),
        stderr: String::from(stderr),
        description: String::from("git"),
    }
}

fn expect_request(p: Progress) -> SyncRequest {
    match p {
        Progress::Continue { request } => request,
        Progress::Finished { .. } => panic!("engine finished too early"),
    }
}

fn expect_git(p: Progress) -> GitCommand {
    match expect_request(p) {
        SyncRequest::Git { command } => command,
        _ => panic!("expected a git command request"),
    }
}

fn expect_checkout(p: Progress, want: &str) {
    match expect_git(p) {
        GitCommand::Checkout { branch } => assert_eq!(branch, want),
        _ => panic!("expected a checkout request"),
    }
}

fn expect_pull(p: Progress, want: Option<&str>) {
    match expect_git(p) {
        GitCommand::Pull { branch } => assert_eq!(branch.as_deref(), want),
        _ => panic!("expected a pull request"),
    }
}

fn expect_query(p: Progress) {
    match expect_git(p) {
        GitCommand::QueryBranch => {}
        _ => panic!("expected a branch query request"),
    }
}

fn expect_finished_ok(p: Progress) {
    match p {
        Progress::Finished { result } => assert!(result.is_ok()),
        Progress::Continue { .. } => panic!("engine did not finish"),
    }
}

fn expect_finished_err(p: Progress) -> ProjectError {
    match p {
        Progress::Finished { result } => result.unwrap_err(),
        Progress::Continue { .. } => panic!("engine did not finish"),
    }
}

#[test]
fn missing_path_clones_before_any_sync() {
    let cfg = project("/work/demo", None);
    let mut e = SyncEngine::for_project(&cfg, String::from("/work/demo"));
    let p = e.step(SyncEvent::PathChecked { exists: false });
    assert!(matches!(
        p,
        Progress::Continue { request: SyncRequest::EnsureParentDirs }
    ));
    let p = e.step(SyncEvent::DirsEnsured { ok: true, message: String::new() });
    match expect_git(p) {
        GitCommand::Clone { url, dest } => {
            assert_eq!(url, "https://example.org/demo.git");
            assert_eq!(dest, "/work/demo");
        }
        _ => panic!("expected a clone request"),
    }
    let p = e.step(SyncEvent::GitDone { outcome: ok_outcome("") });
    assert!(matches!(
        p,
        Progress::Continue { request: SyncRequest::CheckRepo }
    ));
    let p = e.step(SyncEvent::RepoChecked { is_repo: true });
    expect_pull(p, None);
    let p = e.step(SyncEvent::GitDone { outcome: ok_outcome("Already up to date.\n") });
    expect_finished_ok(p);
}

#[test]
fn clone_failure_finishes_project_with_error() {
    let cfg = project("/work/demo", None);
    let mut e = SyncEngine::for_project(&cfg, String::from("/work/demo"));
    e.step(SyncEvent::PathChecked { exists: false });
    e.step(SyncEvent::DirsEnsured { ok: true, message: String::new() });
    let p = e.step(SyncEvent::GitDone { outcome: failed_outcome("fatal: not found\n") });
    match expect_finished_err(p) {
        ProjectError::GitOperation { project_name, source } => {
            assert_eq!(project_name, "demo");
            match source {
                GitError::CommandFailed { stdout, stderr, .. } => {
                    assert_eq!(stderr, "fatal: not found");
                    assert_eq!(stdout, "");
                }
                _ => panic!("expected a command failure"),
            }
        }
        _ => panic!("expected a git operation error"),
    }
}

#[test]
fn clone_launch_failure_finishes_project_with_error() {
    let cfg = project("/work/demo", None);
    let mut e = SyncEngine::for_project(&cfg, String::from("/work/demo"));
    e.step(SyncEvent::PathChecked { exists: false });
    e.step(SyncEvent::DirsEnsured { ok: true, message: String::new() });
    let p = e.step(SyncEvent::GitLaunchFailed {
        command: String::from("git clone"),
        message: String::from("No such file or directory"),
    });
    match expect_finished_err(p) {
        ProjectError::GitOperation { source, .. } => match source {
            GitError::CommandExecution { message, .. } => {
                assert_eq!(message, "No such file or directory");
            }
            _ => panic!("expected an execution error"),
        },
        _ => panic!("expected a git operation error"),
    }
}

#[test]
fn dir_creation_failure_blames_parent_directory() {
    let cfg = project("/work/demo", None);
    let mut e = SyncEngine::for_project(&cfg, String::from("/work/demo"));
    e.step(SyncEvent::PathChecked { exists: false });
    let p = e.step(SyncEvent::DirsEnsured {
        ok: false,
        message: String::from("Permission denied"),
    });
    match expect_finished_err(p) {
        ProjectError::CreateDirs { project_name, path, message } => {
            assert_eq!(project_name, "demo");
            assert_eq!(path, "/work");
            assert_eq!(message, "Permission denied");
        }
        _ => panic!("expected a directory creation error"),
    }
}

#[test]
fn non_repository_path_is_rejected() {
    let cfg = project("/work/demo", None);
    let mut e = SyncEngine::for_project(&cfg, String::from("/work/demo"));
    e.step(SyncEvent::PathChecked { exists: true });
    let p = e.step(SyncEvent::RepoChecked { is_repo: false });
    match expect_finished_err(p) {
        ProjectError::NotGitRepository { project_name, path } => {
            assert_eq!(project_name, "demo");
            assert_eq!(path, "/work/demo");
        }
        _ => panic!("expected a non-repository error"),
    }
}

#[test]
fn omitted_branch_list_pulls_current_branch_only() {
    let cfg = project("/work/demo", None);
    let mut e = SyncEngine::for_project(&cfg, String::from("/work/demo"));
    let p = e.step(SyncEvent::PathChecked { exists: true });
    assert!(matches!(
        p,
        Progress::Continue { request: SyncRequest::CheckRepo }
    ));
    let p = e.step(SyncEvent::RepoChecked { is_repo: true });
    expect_pull(p, None);
    let p = e.step(SyncEvent::GitDone { outcome: ok_outcome("Updating 1f2..3a4") });
    expect_finished_ok(p);
}

#[test]
fn empty_branch_list_pulls_current_branch_only() {
    let cfg = project("/work/demo", Some(vec![]));
    let mut e = SyncEngine::for_project(&cfg, String::from("/work/demo"));
    e.step(SyncEvent::PathChecked { exists: true });
    let p = e.step(SyncEvent::RepoChecked { is_repo: true });
    expect_pull(p, None);
    let p = e.step(SyncEvent::GitDone { outcome: failed_outcome("network down") });
    expect_finished_ok(p);
}

#[test]
fn explicit_branches_run_in_order_and_restore_original() {
    let cfg = project("/work/demo", Some(vec!["a", "b"]));
    let mut e = SyncEngine::for_project(&cfg, String::from("/work/demo"));
    e.step(SyncEvent::PathChecked { exists: true });
    let p = e.step(SyncEvent::RepoChecked { is_repo: true });
    expect_query(p);
    let p = e.step(SyncEvent::GitDone { outcome: ok_outcome("main\n") });
    expect_checkout(p, "a");
    let p = e.step(SyncEvent::GitDone { outcome: ok_outcome("") });
    expect_pull(p, Some("a"));
    let p = e.step(SyncEvent::GitDone { outcome: ok_outcome("") });
    expect_checkout(p, "b");
    let p = e.step(SyncEvent::GitDone { outcome: ok_outcome("") });
    expect_pull(p, Some("b"));
    let p = e.step(SyncEvent::GitDone { outcome: ok_outcome("") });
    expect_query(p);
    let p = e.step(SyncEvent::GitDone { outcome: ok_outcome("b\n") });
    expect_checkout(p, "main");
    let p = e.step(SyncEvent::GitDone { outcome: ok_outcome("") });
    expect_finished_ok(p);
}

#[test]
fn failed_checkout_skips_pull_but_not_later_branches() {
    let cfg = project("/work/demo", Some(vec!["a", "b"]));
    let mut e = SyncEngine::for_project(&cfg, String::from("/work/demo"));
    e.step(SyncEvent::PathChecked { exists: true });
    e.step(SyncEvent::RepoChecked { is_repo: true });
    let p = e.step(SyncEvent::GitDone { outcome: ok_outcome("main\n") });
    expect_checkout(p, "a");
    let p = e.step(SyncEvent::GitDone { outcome: failed_outcome("no branch a") });
    expect_checkout(p, "b");
    let p = e.step(SyncEvent::GitDone { outcome: ok_outcome("") });
    expect_pull(p, Some("b"));
    let p = e.step(SyncEvent::GitDone { outcome: ok_outcome("") });
    expect_query(p);
    let p = e.step(SyncEvent::GitDone { outcome: ok_outcome("b\n") });
    expect_checkout(p, "main");
    let p = e.step(SyncEvent::GitDone { outcome: failed_outcome("cannot restore") });
    expect_finished_ok(p);
}

#[test]
fn restore_is_skipped_when_still_on_original_branch() {
    let cfg = project("/work/demo", Some(vec!["main"]));
    let mut e = SyncEngine::for_project(&cfg, String::from("/work/demo"));
    e.step(SyncEvent::PathChecked { exists: true });
    e.step(SyncEvent::RepoChecked { is_repo: true });
    let p = e.step(SyncEvent::GitDone { outcome: ok_outcome("main\n") });
    expect_checkout(p, "main");
    let p = e.step(SyncEvent::GitDone { outcome: ok_outcome("") });
    expect_pull(p, Some("main"));
    let p = e.step(SyncEvent::GitDone { outcome: ok_outcome("") });
    expect_query(p);
    let p = e.step(SyncEvent::GitDone { outcome: ok_outcome("main\n") });
    expect_finished_ok(p);
}

#[test]
fn unknown_original_branch_skips_restore() {
    let cfg = project("/work/demo", Some(vec!["a"]));
    let mut e = SyncEngine::for_project(&cfg, String::from("/work/demo"));
    e.step(SyncEvent::PathChecked { exists: true });
    e.step(SyncEvent::RepoChecked { is_repo: true });
    let p = e.step(SyncEvent::GitDone { outcome: failed_outcome("detached") });
    expect_checkout(p, "a");
    let p = e.step(SyncEvent::GitDone { outcome: ok_outcome("") });
    expect_pull(p, Some("a"));
    let p = e.step(SyncEvent::GitDone { outcome: ok_outcome("") });
    expect_finished_ok(p);
}

#[test]
fn checkout_launch_failure_continues_with_next_branch() {
    let cfg = project("/work/demo", Some(vec!["a", "b"]));
    let mut e = SyncEngine::for_project(&cfg, String::from("/work/demo"));
    e.step(SyncEvent::PathChecked { exists: true });
    e.step(SyncEvent::RepoChecked { is_repo: true });
    let p = e.step(SyncEvent::GitDone { outcome: ok_outcome("main\n") });
    expect_checkout(p, "a");
    let p = e.step(SyncEvent::GitLaunchFailed {
        command: String::from("git checkout a"),
        message: String::from("No such file or directory"),
    });
    expect_checkout(p, "b");
}

#[test]
fn failed_restore_query_still_attempts_restore() {
    let cfg = project("/work/demo", Some(vec!["a"]));
    let mut e = SyncEngine::for_project(&cfg, String::from("/work/demo"));
    e.step(SyncEvent::PathChecked { exists: true });
    e.step(SyncEvent::RepoChecked { is_repo: true });
    let p = e.step(SyncEvent::GitDone { outcome: ok_outcome("main\n") });
    expect_checkout(p, "a");
    let p = e.step(SyncEvent::GitDone { outcome: ok_outcome("") });
    expect_pull(p, Some("a"));
    let p = e.step(SyncEvent::GitDone { outcome: ok_outcome("") });
    expect_query(p);
    let p = e.step(SyncEvent::GitDone { outcome: failed_outcome("detached") });
    expect_checkout(p, "main");
    let p = e.step(SyncEvent::GitDone { outcome: ok_outcome("") });
    expect_finished_ok(p);
}

#[test]
fn pull_failure_continues_with_next_branch() {
    let cfg = project("/work/demo", Some(vec!["a", "b"]));
    let mut e = SyncEngine::for_project(&cfg, String::from("/work/demo"));
    e.step(SyncEvent::PathChecked { exists: true });
    e.step(SyncEvent::RepoChecked { is_repo: true });
    let p = e.step(SyncEvent::GitDone { outcome: ok_outcome("main\n") });
    expect_checkout(p, "a");
    let p = e.step(SyncEvent::GitDone { outcome: ok_outcome("") });
    expect_pull(p, Some("a"));
    let p = e.step(SyncEvent::GitDone { outcome: failed_outcome("merge conflict") });
    expect_checkout(p, "b");
}
