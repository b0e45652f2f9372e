use repo_sync::config::AppConfig;
use repo_sync::config::ConfigError;
use repo_sync::config::GlobalConfig;
use repo_sync::config::ProjectConfig;
use repo_sync::config::validate_app_config;
use repo_sync::config::validate_project_config;
use repo_sync::error::ProjectError;
use repo_sync::git_utils::CommandOutcome;
use repo_sync::git_utils::GitCommand;
use repo_sync::git_utils::PullStatus;
use repo_sync::git_utils::branch_of_query;
use repo_sync::git_utils::classify_pull;
use repo_sync::git_utils::is_git_repo;
use repo_sync::logger::LogLevel;
use repo_sync::logger::build_log_line;
use repo_sync::paths::effective_parent_dir;
use repo_sync::paths::expand_tilde;
use repo_sync::paths::is_absolute_path;
use repo_sync::paths::join_path;
use repo_sync::paths::parent_dir;
use repo_sync::paths::resolve_project_path;
use repo_sync::summary::RunSummary;
use repo_sync::text::contains_str;
use repo_sync::text::trim_ws;

fn spec(project: &str, url: &str, path: &str) -> ProjectConfig {
    ProjectConfig {
        project: String::from(project),
        url: String::from(url),
        path: String::from(path),
        pull_branches: None,
    }
}

fn outcome(succeeded: bool, stdout: &str) -> CommandOutcome {
    CommandOutcome {
        succeeded,
        stdout: String::from(stdout),
        stderr: String::new(),
        description: String::from("git pull"),
    }
}

#[test]
fn valid_project_passes_validation() {
    assert!(validate_project_config(&spec("p", "u", "x")).is_ok());
}

#[test]
fn empty_name_is_rejected() {
    match validate_project_config(&spec("", "u", "x")) {
        Err(ConfigError::Validation { project_name, message }) => {
            assert_eq!(project_name, "Unknown (empty name)");
            assert_eq!(message, "Project name cannot be empty");
        }
        _ => panic!("expected a validation error"),
    }
}

#[test]
fn empty_url_is_rejected() {
    match validate_project_config(&spec("p", "", "x")) {
        Err(ConfigError::Validation { project_name, message }) => {
            assert_eq!(project_name, "p");
            assert_eq!(message, "Repository URL cannot be empty");
        }
        _ => panic!("expected a validation error"),
    }
}

#[test]
fn empty_path_is_rejected() {
    match validate_project_config(&spec("p", "u", "")) {
        Err(ConfigError::Validation { project_name, message }) => {
            assert_eq!(project_name, "p");
            assert_eq!(message, "Path cannot be empty");
        }
        _ => panic!("expected a validation error"),
    }
}

#[test]
fn config_without_projects_is_rejected() {
    let cfg = AppConfig { global_config: None, projects: vec![] };
    assert!(matches!(validate_app_config(&cfg), Err(ConfigError::NoProjects)));
}

#[test]
fn first_invalid_project_is_reported() {
    let cfg = AppConfig {
        global_config: Some(GlobalConfig { default_clone_parent_directory: None }),
        projects: vec![spec("a", "u", "x"), spec("b", "", "x"), spec("", "u", "x")],
    };
    match validate_app_config(&cfg) {
        Err(ConfigError::Validation { project_name, .. }) => assert_eq!(project_name, "b"),
        _ => panic!("expected a validation error"),
    }
}

#[test]
fn absolute_path_ignores_parent_directory() {
    assert_eq!(resolve_project_path("/abs/app", "/anything"), "/abs/app");
}

#[test]
fn relative_path_joins_parent_directory() {
    assert_eq!(resolve_project_path("app", "/home/user/work"), "/home/user/work/app");
}

#[test]
fn join_inserts_separator_only_when_needed() {
    assert_eq!(join_path("/a/b", "c"), "/a/b/c");
    assert_eq!(join_path("/a/b/", "c"), "/a/b/c");
    assert_eq!(join_path("", "c"), "c");
}

#[test]
fn absolute_paths_start_with_separator() {
    assert!(is_absolute_path("/x"));
    assert!(!is_absolute_path("x/y"));
    assert!(!is_absolute_path(""));
}

#[test]
fn parent_directory_of_paths() {
    assert_eq!(parent_dir("/work/demo").as_deref(), Some("/work"));
    assert_eq!(parent_dir("/demo").as_deref(), Some("/"));
    assert_eq!(parent_dir("a/b/c").as_deref(), Some("a/b"));
    assert_eq!(parent_dir("demo"), None);
}

#[test]
fn tilde_expansion_shapes() {
    assert_eq!(expand_tilde("plain/path"), "plain/path");
    assert_eq!(expand_tilde("~user/path"), "~user/path");
    let expanded = expand_tilde("~/work");
    assert!(expanded == "~/work" || expanded.ends_with("/work"));
}

#[test]
fn effective_parent_falls_back_to_config_directory() {
    assert_eq!(effective_parent_dir(&None, "/cfg", "/cwd"), "/cfg");
}

#[test]
fn effective_parent_empty_default_uses_working_directory() {
    assert_eq!(effective_parent_dir(&Some(String::new()), "/cfg", "/cwd"), "/cwd");
}

#[test]
fn effective_parent_absolute_default_is_used_as_is() {
    assert_eq!(effective_parent_dir(&Some(String::from("/srv/repos")), "/cfg", "/cwd"), "/srv/repos");
}

#[test]
fn effective_parent_relative_default_joins_config_directory() {
    assert_eq!(effective_parent_dir(&Some(String::from("repos")), "/cfg", "/cwd"), "/cfg/repos");
}

#[test]
fn up_to_date_pull_is_a_no_op_success() {
    let o = outcome(true, "Already up to date.\n");
    assert_eq!(classify_pull(&o), PullStatus::UpToDate);
}

#[test]
fn localized_up_to_date_phrase_is_recognized() {
    let o = outcome(true, "Bereits aktuell.\n");
    assert_eq!(classify_pull(&o), PullStatus::UpToDate);
}

#[test]
fn pull_with_changes_is_an_update() {
    let o = outcome(true, "Updating 1a2b3c..4d5e6f\nFast-forward\n");
    assert_eq!(classify_pull(&o), PullStatus::Updated);
}

#[test]
fn failed_pull_is_a_failure_even_with_phrase() {
    let o = outcome(false, "Already up to date.\n");
    assert_eq!(classify_pull(&o), PullStatus::Failed);
}

#[test]
fn branch_query_output_is_trimmed() {
    assert_eq!(branch_of_query(&outcome(true, "  main\n")).as_deref(), Some("main"));
    assert_eq!(branch_of_query(&outcome(false, "main\n")), None);
}

#[test]
fn trimming_removes_only_outer_whitespace() {
    assert_eq!(trim_ws(" \t a b \r\n"), "a b");
    assert_eq!(trim_ws(""), "");
    assert_eq!(trim_ws(" \n "), "");
    assert_eq!(trim_ws("x"), "x");
}

#[test]
fn substring_search_finds_inner_runs() {
    assert!(contains_str("abcdef", "cde"));
    assert!(contains_str("abc", ""));
    assert!(!contains_str("abc", "abcd"));
    assert!(!contains_str("abcdef", "ce"));
}

#[test]
fn clone_command_arguments() {
    let c = GitCommand::Clone { url: String::from("u"), dest: String::from("/d") };
    assert_eq!(c.args(), vec!["clone", "u", "/d"]);
    assert!(!c.runs_in_repo());
    assert_eq!(c.description(), "git clone u /d");
}

#[test]
fn pull_command_arguments() {
    let named = GitCommand::Pull { branch: Some(String::from("dev")) };
    assert_eq!(named.args(), vec!["pull", "origin", "dev"]);
    assert_eq!(named.description(), "git pull origin dev");
    let current = GitCommand::Pull { branch: None };
    assert_eq!(current.args(), vec!["pull"]);
    assert!(current.runs_in_repo());
}

#[test]
fn branch_query_command_arguments() {
    let q = GitCommand::QueryBranch;
    assert_eq!(q.args(), vec!["rev-parse", "--abbrev-ref", "HEAD"]);
    assert_eq!(q.description(), "git rev-parse --abbrev-ref HEAD");
    let co = GitCommand::Checkout { branch: String::from("main") };
    assert_eq!(co.args(), vec!["checkout", "main"]);
}

#[test]
fn log_lines_carry_timestamp_level_and_message() {
    let line = build_log_line("2024-01-02 03:04:05", LogLevel::Info, "hello");
    assert_eq!(line, "[2024-01-02 03:04:05] [INFO] hello");
    assert_eq!(LogLevel::Success.to_prefix(), "[SUCCESS]");
    assert_eq!(LogLevel::Error.to_prefix(), "[ERROR]");
    assert_eq!(LogLevel::Warning.to_prefix(), "[WARN]");
}

#[test]
fn summary_keeps_every_outcome_and_flags_failures() {
    let mut s = RunSummary::new();
    s.record(String::from("a"), Ok(()));
    assert!(!s.any_failure());
    s.record(
        String::from("b"),
        Err(ProjectError::NotGitRepository {
            project_name: String::from("b"),
            path: String::from("/b"),
        }),
    );
    s.record(String::from("c"), Ok(()));
    assert_eq!(s.processed(), 3);
    assert!(s.any_failure());
    assert_eq!(s.outcomes.len(), 3);
    assert_eq!(s.outcomes[1].project_name, "b");
    assert!(s.outcomes[1].error.is_some());
    assert!(s.outcomes[2].error.is_none());
}

#[test]
fn missing_directory_is_not_a_repository() {
    assert!(!is_git_repo("/surely/not/a/real/checkout"));
}
