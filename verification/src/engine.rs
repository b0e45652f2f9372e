use vstd::prelude::*;
use vstd::pervasive::unreached;
use crate::config::ProjectConfig;
use crate::error::GitErrorView;
use crate::error::ProjectError;
use crate::error::ProjectErrorView;
use crate::error::GitError;
use crate::git_utils::CommandOutcome;
use crate::git_utils::CommandOutcomeView;
use crate::git_utils::GitCommand;
use crate::git_utils::GitCommandView;
use crate::git_utils::branch_of_query;
use crate::git_utils::spec_branch_of_query;
use crate::paths::parent_dir;
use crate::paths::spec_parent_dir;
use crate::text::spec_trim;
use crate::text::trim_ws;

verus! {

/// How the branches of one project are to be brought up to date: pull
/// whatever branch is checked out, or walk an explicit, ordered,
/// non-empty list of branches. A declared-but-empty list means the same
/// as no list at all.
pub enum BranchPlan {
    CurrentOnly,
    Explicit { branches: Vec<String> },
}

pub enum BranchPlanView {
    CurrentOnly,
    Explicit { branches: Seq<Seq<char>> },
}

impl View for BranchPlan {
    type V = BranchPlanView;

    open spec fn view(&self) -> BranchPlanView {
        match self {
            BranchPlan::CurrentOnly => BranchPlanView::CurrentOnly,
            BranchPlan::Explicit { branches } => BranchPlanView::Explicit {
                branches: branches.deep_view(),
            },
        }
    }
}

/// The plan derived from a project's declared branch list: absent and
/// empty collapse to pulling the current branch.
pub open spec fn spec_plan_of(pull_branches: Option<Seq<Seq<char>>>) -> BranchPlanView {
    match pull_branches {
        None => BranchPlanView::CurrentOnly,
        Some(bs) => if bs.len() == 0 {
            BranchPlanView::CurrentOnly
        } else {
            BranchPlanView::Explicit { branches: bs }
        },
    }
}

pub open spec fn spec_plan_branches(p: BranchPlanView) -> Seq<Seq<char>> {
    match p {
        BranchPlanView::CurrentOnly => Seq::empty(),
        BranchPlanView::Explicit { branches } => branches,
    }
}

/// Where one project stands in its synchronization protocol.
pub enum EngineState {
    /// Waiting to hear whether the target path exists.
    Idle,
    /// The path was missing; its parent directories are being created.
    CreatingDirs,
    /// The repository is being cloned.
    Cloning,
    /// Waiting to hear whether the path holds a valid repository.
    CheckingRepo,
    /// The branch checked out before the plan runs is being determined.
    QueryingBranch,
    /// The branch at `idx` of the explicit list is being checked out.
    CheckingOut { idx: usize, original: Option<String> },
    /// The branch at `idx` of the explicit list is being pulled.
    Pulling { idx: usize, original: Option<String> },
    /// The currently checked-out branch is being pulled (no explicit list).
    PullingCurrent,
    /// The branch now checked out is being compared with the original one.
    CheckingRestore { branch: String },
    /// The original branch is being checked out again, best-effort.
    Restoring,
    /// The project is finished.
    Done,
}

pub enum EngineStateView {
    Idle,
    CreatingDirs,
    Cloning,
    CheckingRepo,
    QueryingBranch,
    CheckingOut { idx: int, original: Option<Seq<char>> },
    Pulling { idx: int, original: Option<Seq<char>> },
    PullingCurrent,
    CheckingRestore { branch: Seq<char> },
    Restoring,
    Done,
}

impl View for EngineState {
    type V = EngineStateView;

    open spec fn view(&self) -> EngineStateView {
        match self {
            EngineState::Idle => EngineStateView::Idle,
            EngineState::CreatingDirs => EngineStateView::CreatingDirs,
            EngineState::Cloning => EngineStateView::Cloning,
            EngineState::CheckingRepo => EngineStateView::CheckingRepo,
            EngineState::QueryingBranch => EngineStateView::QueryingBranch,
            EngineState::CheckingOut { idx, original } => EngineStateView::CheckingOut {
                idx: *idx as int,
                original: original.deep_view(),
            },
            EngineState::Pulling { idx, original } => EngineStateView::Pulling {
                idx: *idx as int,
                original: original.deep_view(),
            },
            EngineState::PullingCurrent => EngineStateView::PullingCurrent,
            EngineState::CheckingRestore { branch } => EngineStateView::CheckingRestore {
                branch: branch@,
            },
            EngineState::Restoring => EngineStateView::Restoring,
            EngineState::Done => EngineStateView::Done,
        }
    }
}

/// What the driver reports back to the engine after carrying out the
/// engine's latest request.
pub enum SyncEvent {
    /// Whether the target path exists on disk.
    PathChecked { exists: bool },
    /// Whether the parent directories could be created.
    DirsEnsured { ok: bool, message: String },
    /// The requested command ran to completion.
    GitDone { outcome: CommandOutcome },
    /// The requested command could not be started.
    GitLaunchFailed { command: String, message: String },
    /// Whether the target path holds a valid repository.
    RepoChecked { is_repo: bool },
}

pub enum SyncEventView {
    PathChecked { exists: bool },
    DirsEnsured { ok: bool, message: Seq<char> },
    GitDone { outcome: CommandOutcomeView },
    GitLaunchFailed { command: Seq<char>, message: Seq<char> },
    RepoChecked { is_repo: bool },
}

impl View for SyncEvent {
    type V = SyncEventView;

    open spec fn view(&self) -> SyncEventView {
        match self {
            SyncEvent::PathChecked { exists } => SyncEventView::PathChecked { exists: *exists },
            SyncEvent::DirsEnsured { ok, message } => SyncEventView::DirsEnsured {
                ok: *ok,
                message: message@,
            },
            SyncEvent::GitDone { outcome } => SyncEventView::GitDone { outcome: outcome@ },
            SyncEvent::GitLaunchFailed { command, message } => SyncEventView::GitLaunchFailed {
                command: command@,
                message: message@,
            },
            SyncEvent::RepoChecked { is_repo } => SyncEventView::RepoChecked { is_repo: *is_repo },
        }
    }
}

/// What the engine asks the driver to do next.
pub enum SyncRequest {
    /// Create the missing parent directories of the target path.
    EnsureParentDirs,
    /// Check whether the target path holds a valid repository.
    CheckRepo,
    /// Run the given command.
    Git { command: GitCommand },
}

pub enum SyncRequestView {
    EnsureParentDirs,
    CheckRepo,
    Git { command: GitCommandView },
}

impl View for SyncRequest {
    type V = SyncRequestView;

    open spec fn view(&self) -> SyncRequestView {
        match self {
            SyncRequest::EnsureParentDirs => SyncRequestView::EnsureParentDirs,
            SyncRequest::CheckRepo => SyncRequestView::CheckRepo,
            SyncRequest::Git { command } => SyncRequestView::Git { command: command@ },
        }
    }
}

/// One step's output: either the next request to carry out, or the
/// project's final outcome.
pub enum Progress {
    Continue { request: SyncRequest },
    Finished { result: Result<(), ProjectError> },
}

pub enum ProgressView {
    Continue { request: SyncRequestView },
    Finished { result: Result<(), ProjectErrorView> },
}

impl View for Progress {
    type V = ProgressView;

    open spec fn view(&self) -> ProgressView {
        match self {
            Progress::Continue { request } => ProgressView::Continue { request: request@ },
            Progress::Finished { result } => ProgressView::Finished {
                result: match result {
                    Ok(_) => Ok(()),
                    Err(e) => Err(e@),
                },
            },
        }
    }
}

/// The synchronization engine for one project: it decides, step by step,
/// which operation comes next, while the driver carries the operations
/// out and reports what happened.
pub struct SyncEngine {
    pub project_name: String,
    pub url: String,
    pub dest: String,
    pub plan: BranchPlan,
    pub state: EngineState,
}

pub struct SyncEngineView {
    pub project_name: Seq<char>,
    pub url: Seq<char>,
    pub dest: Seq<char>,
    pub plan: BranchPlanView,
    pub state: EngineStateView,
}

impl View for SyncEngine {
    type V = SyncEngineView;

    open spec fn view(&self) -> SyncEngineView {
        SyncEngineView {
            project_name: self.project_name@,
            url: self.url@,
            dest: self.dest@,
            plan: self.plan@,
            state: self.state@,
        }
    }
}

/// The engine's internal invariant: an explicit plan is non-empty, and
/// the states of the explicit-plan protocol only occur together with an
/// explicit plan and an in-range branch index.
pub open spec fn engine_wf(e: SyncEngineView) -> bool {
    &&& (e.plan is Explicit ==> spec_plan_branches(e.plan).len() > 0)
    &&& match e.state {
        EngineStateView::QueryingBranch => e.plan is Explicit,
        EngineStateView::CheckingOut { idx, original } => e.plan is Explicit && 0 <= idx
            < spec_plan_branches(e.plan).len(),
        EngineStateView::Pulling { idx, original } => e.plan is Explicit && 0 <= idx
            < spec_plan_branches(e.plan).len(),
        EngineStateView::CheckingRestore { branch } => e.plan is Explicit,
        EngineStateView::Restoring => e.plan is Explicit,
        _ => true,
    }
}

/// Which kind of event each state is waiting for.
pub open spec fn spec_expects(state: EngineStateView, ev: SyncEventView) -> bool {
    match state {
        EngineStateView::Idle => ev is PathChecked,
        EngineStateView::CreatingDirs => ev is DirsEnsured,
        EngineStateView::Cloning => ev is GitDone || ev is GitLaunchFailed,
        EngineStateView::CheckingRepo => ev is RepoChecked,
        EngineStateView::QueryingBranch => ev is GitDone || ev is GitLaunchFailed,
        EngineStateView::CheckingOut { .. } => ev is GitDone || ev is GitLaunchFailed,
        EngineStateView::Pulling { .. } => ev is GitDone || ev is GitLaunchFailed,
        EngineStateView::PullingCurrent => ev is GitDone || ev is GitLaunchFailed,
        EngineStateView::CheckingRestore { .. } => ev is GitDone || ev is GitLaunchFailed,
        EngineStateView::Restoring => ev is GitDone || ev is GitLaunchFailed,
        EngineStateView::Done => false,
    }
}

pub open spec fn cont(r: SyncRequestView) -> ProgressView {
    ProgressView::Continue { request: r }
}

pub open spec fn cont_git(c: GitCommandView) -> ProgressView {
    ProgressView::Continue { request: SyncRequestView::Git { command: c } }
}

pub open spec fn finished_ok() -> ProgressView {
    ProgressView::Finished { result: Ok(()) }
}

pub open spec fn finished_err(e: ProjectErrorView) -> ProgressView {
    ProgressView::Finished { result: Err(e) }
}

/// The path blamed when parent directories cannot be created: the
/// directory that holds the target, or the target itself when it has no
/// separator.
pub open spec fn spec_dirs_error_path(dest: Seq<char>) -> Seq<char> {
    match spec_parent_dir(dest) {
        Some(p) => p,
        None => dest,
    }
}

/// The branch name carried by a query event: read from the command's
/// outcome, unknown when the command could not run.
pub open spec fn spec_query_of_event(ev: SyncEventView) -> Option<Seq<char>> {
    match ev {
        SyncEventView::GitDone { outcome } => spec_branch_of_query(outcome),
        _ => None,
    }
}

/// Where the engine turns after finishing with branch `idx` of an
/// explicit plan: the next branch of the list, or — past the end — the
/// restore step when the original branch is known, else straight to a
/// successful finish.
pub open spec fn spec_advance(e: SyncEngineView, idx: int, original: Option<Seq<char>>) -> (
    EngineStateView,
    ProgressView,
) {
    let bs = spec_plan_branches(e.plan);
    if idx + 1 < bs.len() {
        (
            EngineStateView::CheckingOut { idx: idx + 1, original },
            cont_git(GitCommandView::Checkout { branch: bs[idx + 1] }),
        )
    } else {
        match original {
            None => (EngineStateView::Done, finished_ok()),
            Some(b) => (
                EngineStateView::CheckingRestore { branch: b },
                cont_git(GitCommandView::QueryBranch),
            ),
        }
    }
}

/// The engine's whole decision table: given where the project stands and
/// what just happened, the state it moves to and the request or final
/// outcome it hands the driver.
pub open spec fn spec_step(e: SyncEngineView, ev: SyncEventView) -> (EngineStateView, ProgressView) {
    let stuck = (EngineStateView::Done, finished_ok());
    match e.state {
        EngineStateView::Idle => match ev {
            SyncEventView::PathChecked { exists } => if exists {
                (EngineStateView::CheckingRepo, cont(SyncRequestView::CheckRepo))
            } else {
                (EngineStateView::CreatingDirs, cont(SyncRequestView::EnsureParentDirs))
            },
            _ => stuck,
        },
        EngineStateView::CreatingDirs => match ev {
            SyncEventView::DirsEnsured { ok, message } => if ok {
                (
                    EngineStateView::Cloning,
                    cont_git(GitCommandView::Clone { url: e.url, dest: e.dest }),
                )
            } else {
                (
                    EngineStateView::Done,
                    finished_err(ProjectErrorView::CreateDirs {
                        project_name: e.project_name,
                        path: spec_dirs_error_path(e.dest),
                        message,
                    }),
                )
            },
            _ => stuck,
        },
        EngineStateView::Cloning => match ev {
            SyncEventView::GitDone { outcome } => if outcome.succeeded {
                (EngineStateView::CheckingRepo, cont(SyncRequestView::CheckRepo))
            } else {
                (
                    EngineStateView::Done,
                    finished_err(ProjectErrorView::GitOperation {
                        project_name: e.project_name,
                        source: GitErrorView::CommandFailed {
                            project_name: e.project_name,
                            command: outcome.description,
                            stdout: spec_trim(outcome.stdout),
                            stderr: spec_trim(outcome.stderr),
                        },
                    }),
                )
            },
            SyncEventView::GitLaunchFailed { command, message } => (
                EngineStateView::Done,
                finished_err(ProjectErrorView::GitOperation {
                    project_name: e.project_name,
                    source: GitErrorView::CommandExecution {
                        project_name: e.project_name,
                        command,
                        message,
                    },
                }),
            ),
            _ => stuck,
        },
        EngineStateView::CheckingRepo => match ev {
            SyncEventView::RepoChecked { is_repo } => if !is_repo {
                (
                    EngineStateView::Done,
                    finished_err(ProjectErrorView::NotGitRepository {
                        project_name: e.project_name,
                        path: e.dest,
                    }),
                )
            } else {
                match e.plan {
                    BranchPlanView::CurrentOnly => (
                        EngineStateView::PullingCurrent,
                        cont_git(GitCommandView::Pull { branch: None }),
                    ),
                    BranchPlanView::Explicit { branches } => (
                        EngineStateView::QueryingBranch,
                        cont_git(GitCommandView::QueryBranch),
                    ),
                }
            },
            _ => stuck,
        },
        EngineStateView::QueryingBranch => (
            EngineStateView::CheckingOut { idx: 0, original: spec_query_of_event(ev) },
            cont_git(GitCommandView::Checkout { branch: spec_plan_branches(e.plan)[0] }),
        ),
        EngineStateView::CheckingOut { idx, original } => match ev {
            SyncEventView::GitDone { outcome } => if outcome.succeeded {
                (
                    EngineStateView::Pulling { idx, original },
                    cont_git(GitCommandView::Pull { branch: Some(spec_plan_branches(e.plan)[idx]) }),
                )
            } else {
                spec_advance(e, idx, original)
            },
            SyncEventView::GitLaunchFailed { .. } => spec_advance(e, idx, original),
            _ => stuck,
        },
        EngineStateView::Pulling { idx, original } => spec_advance(e, idx, original),
        EngineStateView::PullingCurrent => (EngineStateView::Done, finished_ok()),
        EngineStateView::CheckingRestore { branch } => if spec_query_of_event(ev) == Some(branch) {
            (EngineStateView::Done, finished_ok())
        } else {
            (EngineStateView::Restoring, cont_git(GitCommandView::Checkout { branch }))
        },
        EngineStateView::Restoring => (EngineStateView::Done, finished_ok()),
        EngineStateView::Done => stuck,
    }
}

impl SyncEngine {
    /// Sets up the engine for one project, with the already-resolved
    /// target path. The first thing the driver must report is whether
    /// that path exists.
    pub fn for_project(config: &ProjectConfig, dest: String) -> (e: SyncEngine)
        ensures
            e@.project_name == config@.project,
            e@.url == config@.url,
            e@.dest == dest@,
            e@.plan == spec_plan_of(config@.pull_branches),
            e@.state is Idle,
            engine_wf(e@),
    {
        let plan = match &config.pull_branches {
            None => BranchPlan::CurrentOnly,
            Some(bs) => if bs.len() == 0 {
                BranchPlan::CurrentOnly
            } else {
                BranchPlan::Explicit { branches: bs.clone() }
            },
        };
        SyncEngine {
            project_name: config.project.clone(),
            url: config.url.clone(),
            dest,
            plan,
            state: EngineState::Idle,
        }
    }

    /// The branch at a given position of an explicit plan.
    fn branch_at(&self, i: usize) -> (b: String)
        requires
            self@.plan is Explicit,
            0 <= i < spec_plan_branches(self@.plan).len(),
        ensures
            b@ == spec_plan_branches(self@.plan)[i as int],
    {
        match &self.plan {
            BranchPlan::Explicit { branches } => branches[i].clone(),
            BranchPlan::CurrentOnly => unreached(),
        }
    }

    /// The executable advance step; mirrors `spec_advance`.
    fn advance(&self, idx: usize, original: Option<String>) -> (r: (EngineState, Progress))
        requires
            engine_wf(self@),
            self@.plan is Explicit,
            0 <= idx < spec_plan_branches(self@.plan).len(),
        ensures
            (r.0@, r.1@) == spec_advance(self@, idx as int, original.deep_view()),
    {
        let len = match &self.plan {
            BranchPlan::Explicit { branches } => branches.len(),
            BranchPlan::CurrentOnly => unreached(),
        };
        if idx + 1 < len {
            let b = self.branch_at(idx + 1);
            (
                EngineState::CheckingOut { idx: idx + 1, original },
                Progress::Continue {
                    request: SyncRequest::Git { command: GitCommand::Checkout { branch: b } },
                },
            )
        } else {
            match original {
                None => (EngineState::Done, Progress::Finished { result: Ok(()) }),
                Some(b) => (
                    EngineState::CheckingRestore { branch: b },
                    Progress::Continue {
                        request: SyncRequest::Git { command: GitCommand::QueryBranch },
                    },
                ),
            }
        }
    }

    /// One decision step: consumes what the driver reported and says what
    /// to do next. The whole decision table is `spec_step`; the engine's
    /// identity (name, URL, destination, plan) never changes.
    pub fn step(&mut self, ev: SyncEvent) -> (p: Progress)
        requires
            engine_wf(old(self)@),
            spec_expects(old(self)@.state, ev@),
        ensures
            engine_wf(final(self)@),
            final(self)@.project_name == old(self)@.project_name,
            final(self)@.url == old(self)@.url,
            final(self)@.dest == old(self)@.dest,
            final(self)@.plan == old(self)@.plan,
            (final(self)@.state, p@) == spec_step(old(self)@, ev@),
    {
        let (new_state, progress): (EngineState, Progress) = match &self.state {
            EngineState::Idle => match ev {
                SyncEvent::PathChecked { exists } => if exists {
                    (
                        EngineState::CheckingRepo,
                        Progress::Continue { request: SyncRequest::CheckRepo },
                    )
                } else {
                    (
                        EngineState::CreatingDirs,
                        Progress::Continue { request: SyncRequest::EnsureParentDirs },
                    )
                },
                _ => unreached(),
            },
            EngineState::CreatingDirs => match ev {
                SyncEvent::DirsEnsured { ok, message } => if ok {
                    (
                        EngineState::Cloning,
                        Progress::Continue {
                            request: SyncRequest::Git {
                                command: GitCommand::Clone {
                                    url: self.url.clone(),
                                    dest: self.dest.clone(),
                                },
                            },
                        },
                    )
                } else {
                    let path = match parent_dir(self.dest.as_str()) {
                        Some(p) => p,
                        None => self.dest.clone(),
                    };
                    (
                        EngineState::Done,
                        Progress::Finished {
                            result: Err(ProjectError::CreateDirs {
                                project_name: self.project_name.clone(),
                                path,
                                message,
                            }),
                        },
                    )
                },
                _ => unreached(),
            },
            EngineState::Cloning => match ev {
                SyncEvent::GitDone { outcome } => if outcome.succeeded {
                    (
                        EngineState::CheckingRepo,
                        Progress::Continue { request: SyncRequest::CheckRepo },
                    )
                } else {
                    (
                        EngineState::Done,
                        Progress::Finished {
                            result: Err(ProjectError::GitOperation {
                                project_name: self.project_name.clone(),
                                source: GitError::CommandFailed {
                                    project_name: self.project_name.clone(),
                                    command: outcome.description,
                                    stdout: trim_ws(outcome.stdout.as_str()),
                                    stderr: trim_ws(outcome.stderr.as_str()),
                                },
                            }),
                        },
                    )
                },
                SyncEvent::GitLaunchFailed { command, message } => (
                    EngineState::Done,
                    Progress::Finished {
                        result: Err(ProjectError::GitOperation {
                            project_name: self.project_name.clone(),
                            source: GitError::CommandExecution {
                                project_name: self.project_name.clone(),
                                command,
                                message,
                            },
                        }),
                    },
                ),
                _ => unreached(),
            },
            EngineState::CheckingRepo => match ev {
                SyncEvent::RepoChecked { is_repo } => if !is_repo {
                    (
                        EngineState::Done,
                        Progress::Finished {
                            result: Err(ProjectError::NotGitRepository {
                                project_name: self.project_name.clone(),
                                path: self.dest.clone(),
                            }),
                        },
                    )
                } else {
                    match &self.plan {
                        BranchPlan::CurrentOnly => (
                            EngineState::PullingCurrent,
                            Progress::Continue {
                                request: SyncRequest::Git {
                                    command: GitCommand::Pull { branch: None },
                                },
                            },
                        ),
                        BranchPlan::Explicit { .. } => (
                            EngineState::QueryingBranch,
                            Progress::Continue {
                                request: SyncRequest::Git { command: GitCommand::QueryBranch },
                            },
                        ),
                    }
                },
                _ => unreached(),
            },
            EngineState::QueryingBranch => {
                let original = match &ev {
                    SyncEvent::GitDone { outcome } => branch_of_query(outcome),
                    SyncEvent::GitLaunchFailed { .. } => None,
                    _ => unreached(),
                };
                let b = self.branch_at(0);
                (
                    EngineState::CheckingOut { idx: 0, original },
                    Progress::Continue {
                        request: SyncRequest::Git { command: GitCommand::Checkout { branch: b } },
                    },
                )
            },
            EngineState::CheckingOut { idx, original } => {
                let i = *idx;
                let orig = match original {
                    Some(b) => Some(b.clone()),
                    None => None,
                };
                match ev {
                    SyncEvent::GitDone { outcome } => if outcome.succeeded {
                        let b = self.branch_at(i);
                        (
                            EngineState::Pulling { idx: i, original: orig },
                            Progress::Continue {
                                request: SyncRequest::Git {
                                    command: GitCommand::Pull { branch: Some(b) },
                                },
                            },
                        )
                    } else {
                        self.advance(i, orig)
                    },
                    SyncEvent::GitLaunchFailed { .. } => self.advance(i, orig),
                    _ => unreached(),
                }
            },
            EngineState::Pulling { idx, original } => {
                let i = *idx;
                let orig = match original {
                    Some(b) => Some(b.clone()),
                    None => None,
                };
                match ev {
                    SyncEvent::GitDone { .. } => self.advance(i, orig),
                    SyncEvent::GitLaunchFailed { .. } => self.advance(i, orig),
                    _ => unreached(),
                }
            },
            EngineState::PullingCurrent => match ev {
                SyncEvent::GitDone { .. } => (
                    EngineState::Done,
                    Progress::Finished { result: Ok(()) },
                ),
                SyncEvent::GitLaunchFailed { .. } => (
                    EngineState::Done,
                    Progress::Finished { result: Ok(()) },
                ),
                _ => unreached(),
            },
            EngineState::CheckingRestore { branch } => {
                let orig = branch.clone();
                let current = match &ev {
                    SyncEvent::GitDone { outcome } => branch_of_query(outcome),
                    SyncEvent::GitLaunchFailed { .. } => None,
                    _ => unreached(),
                };
                let same = match &current {
                    Some(c) => c.eq(&orig),
                    None => false,
                };
                if same {
                    (EngineState::Done, Progress::Finished { result: Ok(()) })
                } else {
                    (
                        EngineState::Restoring,
                        Progress::Continue {
                            request: SyncRequest::Git {
                                command: GitCommand::Checkout { branch: orig },
                            },
                        },
                    )
                }
            },
            EngineState::Restoring => match ev {
                SyncEvent::GitDone { .. } => (
                    EngineState::Done,
                    Progress::Finished { result: Ok(()) },
                ),
                SyncEvent::GitLaunchFailed { .. } => (
                    EngineState::Done,
                    Progress::Finished { result: Ok(()) },
                ),
                _ => unreached(),
            },
            EngineState::Done => unreached(),
        };
        self.state = new_state;
        progress
    }
}

/// Whether a step's output asks the driver to run a checkout.
pub open spec fn requests_checkout(p: ProgressView) -> bool {
    match p {
        ProgressView::Continue { request: SyncRequestView::Git { command } } => command is Checkout,
        _ => false,
    }
}

/// Whether a step's output asks the driver to run a pull.
pub open spec fn requests_pull(p: ProgressView) -> bool {
    match p {
        ProgressView::Continue { request: SyncRequestView::Git { command } } => command is Pull,
        _ => false,
    }
}

/// Whether a step's output asks the driver to run a clone.
pub open spec fn requests_clone(p: ProgressView) -> bool {
    match p {
        ProgressView::Continue { request: SyncRequestView::Git { command } } => command is Clone,
        _ => false,
    }
}

/// Law: the clone comes first, and comes once. While a project is still
/// in its clone phase — the target path was reported missing and the
/// clone has not yet succeeded — the engine never asks for a checkout or
/// a pull. The one clone it can ask for carries exactly the project's
/// URL and resolved destination, and is asked for only from the
/// directory-creation state; that state is entered only from the initial
/// state, and the initial state is never re-entered, so a run asks for at
/// most one clone.
pub proof fn lemma_clone_first_and_once(e: SyncEngineView, ev: SyncEventView)
    requires
        engine_wf(e),
        spec_expects(e.state, ev),
    ensures
        (e.state is Idle || e.state is CreatingDirs || e.state is Cloning) ==> (
        !requests_checkout(spec_step(e, ev).1) && !requests_pull(spec_step(e, ev).1)),
        requests_clone(spec_step(e, ev).1) ==> e.state is CreatingDirs && spec_step(e, ev).1
            == cont_git(GitCommandView::Clone { url: e.url, dest: e.dest }),
        spec_step(e, ev).0 is CreatingDirs ==> e.state is Idle,
        !(spec_step(e, ev).0 is Idle),
{
}

/// The engine as it stands after one step: only the state moves.
pub open spec fn spec_engine_after(e: SyncEngineView, ev: SyncEventView) -> SyncEngineView {
    SyncEngineView {
        project_name: e.project_name,
        url: e.url,
        dest: e.dest,
        plan: e.plan,
        state: spec_step(e, ev).0,
    }
}

/// The engine's invariant holds at every point of every run.
pub proof fn lemma_wf_preserved(e: SyncEngineView, ev: SyncEventView)
    requires
        engine_wf(e),
    ensures
        engine_wf(spec_engine_after(e, ev)),
{
}

/// How many of the given events, fed in order, make the engine ask for a
/// clone.
pub open spec fn spec_count_clone_requests(e: SyncEngineView, events: Seq<SyncEventView>) -> int
    decreases events.len(),
{
    if events.len() == 0 {
        0
    } else {
        (if requests_clone(spec_step(e, events[0]).1) {
            1int
        } else {
            0int
        }) + spec_count_clone_requests(spec_engine_after(e, events[0]), events.drop_first())
    }
}

/// How many of the given events, fed in order, make the engine ask for a
/// pull.
pub open spec fn spec_count_pull_requests(e: SyncEngineView, events: Seq<SyncEventView>) -> int
    decreases events.len(),
{
    if events.len() == 0 {
        0
    } else {
        (if requests_pull(spec_step(e, events[0]).1) {
            1int
        } else {
            0int
        }) + spec_count_pull_requests(spec_engine_after(e, events[0]), events.drop_first())
    }
}

/// How many of the given events, fed in order, make the engine ask for a
/// checkout.
pub open spec fn spec_count_checkout_requests(e: SyncEngineView, events: Seq<SyncEventView>) -> int
    decreases events.len(),
{
    if events.len() == 0 {
        0
    } else {
        (if requests_checkout(spec_step(e, events[0]).1) {
            1int
        } else {
            0int
        }) + spec_count_checkout_requests(spec_engine_after(e, events[0]), events.drop_first())
    }
}

/// How many clone requests a run starting in the given state may still
/// make.
pub open spec fn spec_clone_budget(state: EngineStateView) -> int {
    if state is Idle || state is CreatingDirs {
        1
    } else {
        0
    }
}

/// Law (whole-run form): however a run unfolds — whatever events the
/// driver reports, in whatever number — the engine asks for at most one
/// clone; and once the clone phase is behind it, it never asks for one
/// again.
pub proof fn lemma_trace_at_most_one_clone(e: SyncEngineView, events: Seq<SyncEventView>)
    ensures
        spec_count_clone_requests(e, events) <= spec_clone_budget(e.state),
    decreases events.len(),
{
    if events.len() > 0 {
        lemma_trace_at_most_one_clone(spec_engine_after(e, events[0]), events.drop_first());
    }
}

/// How many pull requests a run with no explicit branch list may still
/// make from the given state.
pub open spec fn spec_pull_budget(state: EngineStateView) -> int {
    if state is Idle || state is CreatingDirs || state is Cloning || state is CheckingRepo {
        1
    } else {
        0
    }
}

/// Law (whole-run form): with a plan that names no branches, a run never
/// asks for a checkout at all, and asks for at most one pull, however it
/// unfolds.
pub proof fn lemma_trace_current_only(e: SyncEngineView, events: Seq<SyncEventView>)
    requires
        engine_wf(e),
        e.plan is CurrentOnly,
    ensures
        spec_count_checkout_requests(e, events) == 0,
        spec_count_pull_requests(e, events) <= spec_pull_budget(e.state),
    decreases events.len(),
{
    if events.len() > 0 {
        lemma_wf_preserved(e, events[0]);
        lemma_trace_current_only(spec_engine_after(e, events[0]), events.drop_first());
    }
}

/// Law: a plan that names no branches performs no checkout and no branch
/// query; it asks for exactly one pull — of whichever branch is checked
/// out, with no branch named — as soon as the repository is confirmed
/// valid, and the project finishes successfully right after that pull
/// completes, whatever the pull's outcome.
pub proof fn lemma_current_only_single_pull(e: SyncEngineView, ev: SyncEventView)
    requires
        engine_wf(e),
        spec_expects(e.state, ev),
        e.plan is CurrentOnly,
    ensures
        !requests_checkout(spec_step(e, ev).1),
        requests_pull(spec_step(e, ev).1) <==> (e.state is CheckingRepo && ev
            == SyncEventView::RepoChecked { is_repo: true }),
        requests_pull(spec_step(e, ev).1) ==> spec_step(e, ev) == (
            EngineStateView::PullingCurrent,
            cont_git(GitCommandView::Pull { branch: None }),
        ),
        spec_step(e, ev).0 is PullingCurrent ==> e.state is CheckingRepo,
        e.state is PullingCurrent ==> spec_step(e, ev) == (EngineStateView::Done, finished_ok()),
{
}

/// Law: with an explicit branch list, the branches are visited strictly
/// in declared order. A successful checkout of the branch at `idx` is
/// followed by exactly one pull of that same branch; once that pull
/// finishes — successfully or not — the engine turns to the branch at
/// `idx + 1`, or, past the end of the list, to restoring the original
/// branch when it is known, else to a successful finish.
pub proof fn lemma_explicit_branch_order(e: SyncEngineView, ev: SyncEventView)
    requires
        engine_wf(e),
        spec_expects(e.state, ev),
    ensures
        forall|idx: int, original: Option<Seq<char>>|
            e.state == (EngineStateView::CheckingOut { idx, original }) && (ev matches
            SyncEventView::GitDone { outcome } && outcome.succeeded) ==> spec_step(e, ev) == (
                EngineStateView::Pulling { idx, original },
                cont_git(GitCommandView::Pull { branch: Some(spec_plan_branches(e.plan)[idx]) }),
            ),
        forall|idx: int, original: Option<Seq<char>>|
            e.state == (EngineStateView::Pulling { idx, original }) ==> spec_step(e, ev)
                == spec_advance(e, idx, original),
        forall|idx: int, original: Option<Seq<char>>|
            0 <= idx < spec_plan_branches(e.plan).len() && idx + 1 < spec_plan_branches(
                e.plan,
            ).len() ==> #[trigger] spec_advance(e, idx, original) == (
                EngineStateView::CheckingOut { idx: idx + 1, original },
                cont_git(
                    GitCommandView::Checkout { branch: spec_plan_branches(e.plan)[idx + 1] },
                ),
            ),
        forall|idx: int|
            idx + 1 == spec_plan_branches(e.plan).len() ==> spec_advance(e, idx, None) == (
                EngineStateView::Done,
                finished_ok(),
            ),
        forall|idx: int, b: Seq<char>|
            idx + 1 == spec_plan_branches(e.plan).len() ==> spec_advance(e, idx, Some(b)) == (
                EngineStateView::CheckingRestore { branch: b },
                cont_git(GitCommandView::QueryBranch),
            ),
{
}

/// Law: one branch's failure never stops the later ones. When the
/// checkout of the branch at `idx` fails — the command exits non-zero or
/// cannot be launched at all — no pull of that branch is requested, and
/// the engine moves straight on to the checkout of the next branch of the
/// list (or to the restore step when the list is exhausted).
pub proof fn lemma_checkout_failure_isolated(e: SyncEngineView, ev: SyncEventView, idx: int, original: Option<Seq<char>>)
    requires
        engine_wf(e),
        spec_expects(e.state, ev),
        e.state == (EngineStateView::CheckingOut { idx, original }),
        !(ev matches SyncEventView::GitDone { outcome } && outcome.succeeded),
    ensures
        spec_step(e, ev) == spec_advance(e, idx, original),
        !requests_pull(spec_step(e, ev).1),
        idx + 1 < spec_plan_branches(e.plan).len() ==> spec_step(e, ev).1 == cont_git(
            GitCommandView::Checkout { branch: spec_plan_branches(e.plan)[idx + 1] },
        ),
{
}

/// Law: the restore of the original branch is best-effort and minimal.
/// The restoring checkout is requested exactly when the branch reported
/// after the plan ran differs from (or could not be compared with) the
/// original one; and whatever that checkout's outcome, the project
/// finishes successfully.
pub proof fn lemma_restore_best_effort(e: SyncEngineView, ev: SyncEventView)
    requires
        engine_wf(e),
        spec_expects(e.state, ev),
    ensures
        forall|b: Seq<char>|
            e.state == (EngineStateView::CheckingRestore { branch: b }) ==> if spec_query_of_event(
                ev,
            ) == Some(b) {
                spec_step(e, ev) == (EngineStateView::Done, finished_ok())
            } else {
                spec_step(e, ev) == (
                    EngineStateView::Restoring,
                    cont_git(GitCommandView::Checkout { branch: b }),
                )
            },
        e.state is Restoring ==> spec_step(e, ev) == (EngineStateView::Done, finished_ok()),
{
}

} // verus!
