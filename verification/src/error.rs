use vstd::prelude::*;

verus! {

/// A failed interaction with the version-control executable.
pub enum GitError {
    /// The executable could not be started at all.
    CommandExecution { project_name: String, command: String, message: String },
    /// The executable ran and exited non-zero; both output streams are
    /// kept for the log.
    CommandFailed { project_name: String, command: String, stdout: String, stderr: String },
    /// The branch currently checked out could not be determined.
    BranchInfoError { project_name: String, message: String },
}

pub enum GitErrorView {
    CommandExecution { project_name: Seq<char>, command: Seq<char>, message: Seq<char> },
    CommandFailed {
        project_name: Seq<char>,
        command: Seq<char>,
        stdout: Seq<char>,
        stderr: Seq<char>,
    },
    BranchInfoError { project_name: Seq<char>, message: Seq<char> },
}

impl View for GitError {
    type V = GitErrorView;

    open spec fn view(&self) -> GitErrorView {
        match self {
            GitError::CommandExecution { project_name, command, message } => {
                GitErrorView::CommandExecution {
                    project_name: project_name@,
                    command: command@,
                    message: message@,
                }
            },
            GitError::CommandFailed { project_name, command, stdout, stderr } => {
                GitErrorView::CommandFailed {
                    project_name: project_name@,
                    command: command@,
                    stdout: stdout@,
                    stderr: stderr@,
                }
            },
            GitError::BranchInfoError { project_name, message } => {
                GitErrorView::BranchInfoError {
                    project_name: project_name@,
                    message: message@,
                }
            },
        }
    }
}

/// Why one project's synchronization was abandoned. Each of these stops
/// only the project it names; the run moves on to the next project.
pub enum ProjectError {
    /// The parent directories of the target path could not be created.
    CreateDirs { project_name: String, path: String, message: String },
    /// The clone of the repository failed.
    GitOperation { project_name: String, source: GitError },
    /// The target path exists but holds no repository metadata directory.
    NotGitRepository { project_name: String, path: String },
}

pub enum ProjectErrorView {
    CreateDirs { project_name: Seq<char>, path: Seq<char>, message: Seq<char> },
    GitOperation { project_name: Seq<char>, source: GitErrorView },
    NotGitRepository { project_name: Seq<char>, path: Seq<char> },
}

impl View for ProjectError {
    type V = ProjectErrorView;

    open spec fn view(&self) -> ProjectErrorView {
        match self {
            ProjectError::CreateDirs { project_name, path, message } => {
                ProjectErrorView::CreateDirs {
                    project_name: project_name@,
                    path: path@,
                    message: message@,
                }
            },
            ProjectError::GitOperation { project_name, source } => {
                ProjectErrorView::GitOperation { project_name: project_name@, source: source@ }
            },
            ProjectError::NotGitRepository { project_name, path } => {
                ProjectErrorView::NotGitRepository { project_name: project_name@, path: path@ }
            },
        }
    }
}

} // verus!
