use vstd::prelude::*;
use vstd::string::StringExecFns;
use crate::paths::join_path;
use crate::text::contains_str;
use crate::text::spec_contains_seq;
use crate::text::spec_trim;
use crate::text::trim_ws;

verus! {

/// What one finished subprocess produced: whether it exited successfully,
/// its captured output streams, and a human-readable rendering of the
/// command that ran.
pub struct CommandOutcome {
    pub succeeded: bool,
    pub stdout: String,
    pub stderr: String,
    pub description: String,
}

pub struct CommandOutcomeView {
    pub succeeded: bool,
    pub stdout: Seq<char>,
    pub stderr: Seq<char>,
    pub description: Seq<char>,
}

impl View for CommandOutcome {
    type V = CommandOutcomeView;

    open spec fn view(&self) -> CommandOutcomeView {
        CommandOutcomeView {
            succeeded: self.succeeded,
            stdout: self.stdout@,
            stderr: self.stderr@,
            description: self.description@,
        }
    }
}

/// One invocation of the version-control executable that the engine can
/// ask for.
pub enum GitCommand {
    /// Clone the remote repository into the destination path; runs outside
    /// any repository.
    Clone { url: String, dest: String },
    /// Report the branch that is currently checked out; runs inside the
    /// repository.
    QueryBranch,
    /// Switch the working tree to the named branch; runs inside the
    /// repository.
    Checkout { branch: String },
    /// Bring a branch up to date: the named one, or whichever is checked
    /// out when none is named; runs inside the repository.
    Pull { branch: Option<String> },
}

pub enum GitCommandView {
    Clone { url: Seq<char>, dest: Seq<char> },
    QueryBranch,
    Checkout { branch: Seq<char> },
    Pull { branch: Option<Seq<char>> },
}

impl View for GitCommand {
    type V = GitCommandView;

    open spec fn view(&self) -> GitCommandView {
        match self {
            GitCommand::Clone { url, dest } => GitCommandView::Clone { url: url@, dest: dest@ },
            GitCommand::QueryBranch => GitCommandView::QueryBranch,
            GitCommand::Checkout { branch } => GitCommandView::Checkout { branch: branch@ },
            GitCommand::Pull { branch } => GitCommandView::Pull {
                branch: match branch {
                    Some(b) => Some(b@),
                    None => None,
                },
            },
        }
    }
}

/// The argument list of a command, after the executable's own name.
pub open spec fn spec_command_args(c: GitCommandView) -> Seq<Seq<char>> {
    match c {
        GitCommandView::Clone { url, dest } => seq!["clone"@, url, dest],
        GitCommandView::QueryBranch => seq!["rev-parse"@, "--abbrev-ref"@, "HEAD"@],
        GitCommandView::Checkout { branch } => seq!["checkout"@, branch],
        GitCommandView::Pull { branch } => match branch {
            Some(b) => seq!["pull"@, "origin"@, b],
            None => seq!["pull"@],
        },
    }
}

/// Whether a command runs inside the repository's working tree; cloning
/// is the one that does not, since the target does not exist yet.
pub open spec fn spec_runs_in_repo(c: GitCommandView) -> bool {
    !(c is Clone)
}

impl GitCommand {
    /// The arguments to hand the version-control executable.
    pub fn args(&self) -> (r: Vec<String>)
        ensures
            r.deep_view() == spec_command_args(self@),
    {
        let mut out: Vec<String> = Vec::new();
        match self {
            GitCommand::Clone { url, dest } => {
                out.push(String::from_str("clone"));
                out.push(url.clone());
                out.push(dest.clone());
            },
            GitCommand::QueryBranch => {
                out.push(String::from_str("rev-parse"));
                out.push(String::from_str("--abbrev-ref"));
                out.push(String::from_str("HEAD"));
            },
            GitCommand::Checkout { branch } => {
                out.push(String::from_str("checkout"));
                out.push(branch.clone());
            },
            GitCommand::Pull { branch } => {
                out.push(String::from_str("pull"));
                if let Some(b) = branch {
                    out.push(String::from_str("origin"));
                    out.push(b.clone());
                }
            },
        }
        proof {
            assert(out.deep_view() =~= spec_command_args(self@));
        }
        out
    }

    /// Whether the command must run with the repository path as its
    /// working directory.
    pub fn runs_in_repo(&self) -> (r: bool)
        ensures
            r == spec_runs_in_repo(self@),
    {
        match self {
            GitCommand::Clone { .. } => false,
            _ => true,
        }
    }

    /// A human-readable rendering of the command: the executable's name
    /// followed by each argument, blank-separated.
    pub fn description(&self) -> (r: String)
        ensures
            r@ == spec_command_description(self@),
    {
        let args = self.args();
        let mut out = String::from_str("git");
        let mut i: usize = 0;
        proof {
            assert(args.deep_view().skip(0) =~= args.deep_view());
        }
        while i < args.len()
            invariant
                0 <= i <= args.len(),
                args.deep_view() == spec_command_args(self@),
                spec_command_description(self@)
                    == spec_describe_args(out@, args.deep_view().skip(i as int)),
            decreases args.len() - i,
        {
            proof {
                let rest = args.deep_view().skip(i as int);
                assert(rest[0] == args.deep_view()[i as int]);
                assert(rest.drop_first() =~= args.deep_view().skip(i + 1));
            }
            out.append(" ");
            out.append(args[i].as_str());
            i = i + 1;
        }
        proof {
            assert(args.deep_view().skip(args.len() as int) =~= Seq::<Seq<char>>::empty());
        }
        out
    }
}

pub open spec fn spec_describe_args(prefix: Seq<char>, args: Seq<Seq<char>>) -> Seq<char>
    decreases args.len(),
{
    if args.len() == 0 {
        prefix
    } else {
        spec_describe_args(prefix + " "@ + args[0], args.drop_first())
    }
}

/// The rendering of a whole command line, as it is quoted in errors and
/// in the log.
pub open spec fn spec_command_description(c: GitCommandView) -> Seq<char> {
    spec_describe_args("git"@, spec_command_args(c))
}

/// How a finished pull is reported: a success whose output carries one of
/// the canonical "already up to date" phrases was a no-op; any other
/// success brought updates; a non-zero exit is a failure.
#[derive(Clone, Copy, PartialEq, Eq, Structural, Debug)]
pub enum PullStatus {
    UpToDate,
    Updated,
    Failed,
}

pub open spec fn spec_classify_pull(o: CommandOutcomeView) -> PullStatus {
    if !o.succeeded {
        PullStatus::Failed
    } else if spec_contains_seq(o.stdout, "Already up to date."@) || spec_contains_seq(
        o.stdout,
        "Bereits aktuell."@,
    ) {
        PullStatus::UpToDate
    } else {
        PullStatus::Updated
    }
}

/// Classifies a pull's outcome for reporting. A no-op pull is not an
/// error, and not an update either.
pub fn classify_pull(o: &CommandOutcome) -> (r: PullStatus)
    ensures
        r == spec_classify_pull(o@),
{
    if !o.succeeded {
        PullStatus::Failed
    } else if contains_str(o.stdout.as_str(), "Already up to date.") || contains_str(
        o.stdout.as_str(),
        "Bereits aktuell.",
    ) {
        PullStatus::UpToDate
    } else {
        PullStatus::Updated
    }
}

/// The branch name reported by a branch query: its trimmed standard
/// output on success, nothing on failure.
pub open spec fn spec_branch_of_query(o: CommandOutcomeView) -> Option<Seq<char>> {
    if o.succeeded {
        Some(spec_trim(o.stdout))
    } else {
        None
    }
}

/// Reads the branch name out of a branch query's outcome.
pub fn branch_of_query(o: &CommandOutcome) -> (r: Option<String>)
    ensures
        match r {
            Some(b) => spec_branch_of_query(o@) == Some(b@),
            None => spec_branch_of_query(o@) is None,
        },
{
    if o.succeeded {
        Some(trim_ws(o.stdout.as_str()))
    } else {
        None
    }
}

/// Relies on std's Path::is_dir: whether the path names a directory on
/// disk. The answer depends on the state of the filesystem, so nothing
/// further is promised of it.
#[verifier::external_body]
fn path_is_dir(path: &str) -> bool {
    std::path::Path::new(path).is_dir()
}

/// Whether the path holds a valid repository: its metadata directory
/// exists. The answer depends on the state of the filesystem.
pub fn is_git_repo(path: &str) -> bool {
    let marker = join_path(path, ".git");
    path_is_dir(marker.as_str())
}

} // verus!
