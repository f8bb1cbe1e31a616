//! Workspace materialization: an idempotent state machine that decides
//! every git step needed to open or create a per-issue worktree.
//!
//! The machine owns the decisions — reuse, clone versus fetch, the
//! three default-branch detection tiers, track-versus-create — and a
//! driver outside the verified library performs each requested git
//! operation and hands the outcome back to [`Lifecycle::step`].

use vstd::prelude::*;
use vstd::string::StrSliceExecFns;
use vstd::string::StringExecFns;

use crate::git::{candidate_name, candidate_spec, origin_ref, origin_ref_spec, remote_show_branch,
    symbolic_ref_branch};
use crate::issue::{bare_path_spec, clone_url_spec, dir_name_spec, temp_path_spec, IssueId,
    IssueRef};

verus! {

/// A materialized workspace, handed back to the caller.
#[derive(Debug, Clone)]
pub struct Workspace {
    pub path: String,
    pub issue: IssueRef,
    /// true if this run actually created the worktree; false if it
    /// already existed.
    pub created: bool,
}

/// The mathematical value of a [`Workspace`].
pub struct WorkspaceV {
    pub path: Seq<char>,
    pub issue: IssueId,
    pub created: bool,
}

impl View for Workspace {
    type V = WorkspaceV;

    open spec fn view(&self) -> WorkspaceV {
        WorkspaceV { path: self.path@, issue: self.issue@, created: self.created }
    }
}

/// One git operation the driver is asked to perform.
#[derive(Debug, Clone)]
pub enum GitRequest {
    /// Does the worktree path exist on disk?
    CheckWorktree { path: String },
    /// Does the bare mirror path exist on disk?
    CheckBare { path: String },
    /// `git clone --bare {url} {dest}`, parents created first.
    Clone { url: String, dest: String },
    /// `git -C {bare} config remote.origin.fetch +refs/heads/*:refs/remotes/origin/*`.
    SetFetchRefspec { bare: String },
    /// `git -C {bare} fetch origin`.
    Fetch { bare: String },
    /// `git -C {bare} symbolic-ref refs/remotes/origin/HEAD`.
    ReadSymbolicHead { bare: String },
    /// `git -C {bare} remote show origin`.
    ShowRemote { bare: String },
    /// `git -C {bare} rev-parse --verify {refname}`.
    VerifyRef { bare: String, refname: String },
    /// `git -C {bare} worktree add ...`: track the existing remote
    /// branch when `track_existing`, else create `branch` anew from
    /// `origin/{base}`.
    AddWorktree { bare: String, dest: String, branch: String, base: String, track_existing: bool },
}

/// The mathematical value of a [`GitRequest`].
pub enum RequestV {
    CheckWorktree { path: Seq<char> },
    CheckBare { path: Seq<char> },
    Clone { url: Seq<char>, dest: Seq<char> },
    SetFetchRefspec { bare: Seq<char> },
    Fetch { bare: Seq<char> },
    ReadSymbolicHead { bare: Seq<char> },
    ShowRemote { bare: Seq<char> },
    VerifyRef { bare: Seq<char>, refname: Seq<char> },
    AddWorktree {
        bare: Seq<char>,
        dest: Seq<char>,
        branch: Seq<char>,
        base: Seq<char>,
        track_existing: bool,
    },
}

impl View for GitRequest {
    type V = RequestV;

    open spec fn view(&self) -> RequestV {
        match self {
            GitRequest::CheckWorktree { path } => RequestV::CheckWorktree { path: path@ },
            GitRequest::CheckBare { path } => RequestV::CheckBare { path: path@ },
            GitRequest::Clone { url, dest } => RequestV::Clone { url: url@, dest: dest@ },
            GitRequest::SetFetchRefspec { bare } => RequestV::SetFetchRefspec { bare: bare@ },
            GitRequest::Fetch { bare } => RequestV::Fetch { bare: bare@ },
            GitRequest::ReadSymbolicHead { bare } => RequestV::ReadSymbolicHead { bare: bare@ },
            GitRequest::ShowRemote { bare } => RequestV::ShowRemote { bare: bare@ },
            GitRequest::VerifyRef { bare, refname } => RequestV::VerifyRef {
                bare: bare@,
                refname: refname@,
            },
            GitRequest::AddWorktree { bare, dest, branch, base, track_existing } =>
                RequestV::AddWorktree {
                bare: bare@,
                dest: dest@,
                branch: branch@,
                base: base@,
                track_existing: *track_existing,
            },
        }
    }
}

/// The driver's report on one performed operation. `Exists` answers
/// the two path probes; the others report a subprocess: it could not
/// be launched, it exited nonzero, or it succeeded with the captured
/// standard output (empty for status-only commands).
#[derive(Debug, Clone)]
pub enum GitEvent {
    Exists(bool),
    NotRun,
    Failed,
    Succeeded(String),
}

/// The mathematical value of a [`GitEvent`].
pub enum GitEventV {
    Exists(bool),
    NotRun,
    Failed,
    Succeeded(Seq<char>),
}

impl View for GitEvent {
    type V = GitEventV;

    open spec fn view(&self) -> GitEventV {
        match self {
            GitEvent::Exists(b) => GitEventV::Exists(*b),
            GitEvent::NotRun => GitEventV::NotRun,
            GitEvent::Failed => GitEventV::Failed,
            GitEvent::Succeeded(out) => GitEventV::Succeeded(out@),
        }
    }
}

/// Why materialization aborted. Every variant is fatal; the driver
/// performs no retries.
#[derive(Debug, Clone, PartialEq)]
pub enum GitError {
    CloneNotRun,
    CloneFailed { url: String },
    RefspecNotRun,
    RefspecFailed,
    CloneFetchNotRun,
    CloneFetchFailed,
    FetchNotRun,
    FetchFailed,
    SymbolicRefNotRun,
    RemoteShowNotRun,
    RevParseNotRun,
    NoDefaultBranch,
    WorktreeNotRun,
    WorktreeFailed { branch: String },
}

/// The mathematical value of a [`GitError`].
pub enum GitErrorV {
    CloneNotRun,
    CloneFailed { url: Seq<char> },
    RefspecNotRun,
    RefspecFailed,
    CloneFetchNotRun,
    CloneFetchFailed,
    FetchNotRun,
    FetchFailed,
    SymbolicRefNotRun,
    RemoteShowNotRun,
    RevParseNotRun,
    NoDefaultBranch,
    WorktreeNotRun,
    WorktreeFailed { branch: Seq<char> },
}

impl View for GitError {
    type V = GitErrorV;

    open spec fn view(&self) -> GitErrorV {
        match self {
            GitError::CloneNotRun => GitErrorV::CloneNotRun,
            GitError::CloneFailed { url } => GitErrorV::CloneFailed { url: url@ },
            GitError::RefspecNotRun => GitErrorV::RefspecNotRun,
            GitError::RefspecFailed => GitErrorV::RefspecFailed,
            GitError::CloneFetchNotRun => GitErrorV::CloneFetchNotRun,
            GitError::CloneFetchFailed => GitErrorV::CloneFetchFailed,
            GitError::FetchNotRun => GitErrorV::FetchNotRun,
            GitError::FetchFailed => GitErrorV::FetchFailed,
            GitError::SymbolicRefNotRun => GitErrorV::SymbolicRefNotRun,
            GitError::RemoteShowNotRun => GitErrorV::RemoteShowNotRun,
            GitError::RevParseNotRun => GitErrorV::RevParseNotRun,
            GitError::NoDefaultBranch => GitErrorV::NoDefaultBranch,
            GitError::WorktreeNotRun => GitErrorV::WorktreeNotRun,
            GitError::WorktreeFailed { branch } => GitErrorV::WorktreeFailed { branch: branch@ },
        }
    }
}

/// The message of a materialization error.
pub open spec fn git_error_message(e: GitErrorV) -> Seq<char> {
    match e {
        GitErrorV::CloneNotRun => "Failed to run `git clone --bare`"@,
        GitErrorV::CloneFailed { url } => "git clone --bare failed for "@ + url,
        GitErrorV::RefspecNotRun => "Failed to configure remote.origin.fetch"@,
        GitErrorV::RefspecFailed => "Failed to set remote.origin.fetch"@,
        GitErrorV::CloneFetchNotRun => "Failed to run `git fetch origin`"@,
        GitErrorV::CloneFetchFailed => "git fetch origin failed after bare clone"@,
        GitErrorV::FetchNotRun => "Failed to run `git fetch`"@,
        GitErrorV::FetchFailed => "git fetch origin failed"@,
        GitErrorV::SymbolicRefNotRun => "Failed to run `git symbolic-ref`"@,
        GitErrorV::RemoteShowNotRun => "Failed to run `git remote show origin`"@,
        GitErrorV::RevParseNotRun => "Failed to run `git rev-parse`"@,
        GitErrorV::NoDefaultBranch => "Could not detect default branch for the repository"@,
        GitErrorV::WorktreeNotRun => "Failed to run `git worktree add`"@,
        GitErrorV::WorktreeFailed { branch } => "git worktree add failed for branch "@ + branch,
    }
}

impl GitError {
    /// The error rendered as a single human-readable message.
    pub fn message(&self) -> (r: String)
        ensures
            r@ == git_error_message(self@),
    {
        match self {
            GitError::CloneNotRun => String::from_str("Failed to run `git clone --bare`"),
            GitError::CloneFailed { url } => {
                let mut s = String::from_str("git clone --bare failed for ");
                s.append(url.as_str());
                s
            },
            GitError::RefspecNotRun => String::from_str("Failed to configure remote.origin.fetch"),
            GitError::RefspecFailed => String::from_str("Failed to set remote.origin.fetch"),
            GitError::CloneFetchNotRun => String::from_str("Failed to run `git fetch origin`"),
            GitError::CloneFetchFailed => String::from_str(
                "git fetch origin failed after bare clone",
            ),
            GitError::FetchNotRun => String::from_str("Failed to run `git fetch`"),
            GitError::FetchFailed => String::from_str("git fetch origin failed"),
            GitError::SymbolicRefNotRun => String::from_str("Failed to run `git symbolic-ref`"),
            GitError::RemoteShowNotRun => String::from_str(
                "Failed to run `git remote show origin`",
            ),
            GitError::RevParseNotRun => String::from_str("Failed to run `git rev-parse`"),
            GitError::NoDefaultBranch => String::from_str(
                "Could not detect default branch for the repository",
            ),
            GitError::WorktreeNotRun => String::from_str("Failed to run `git worktree add`"),
            GitError::WorktreeFailed { branch } => {
                let mut s = String::from_str("git worktree add failed for branch ");
                s.append(branch.as_str());
                s
            },
        }
    }
}

/// Where a materialization run stands.
#[derive(Debug, Clone)]
pub enum MirrorPhase {
    /// Awaiting the worktree-path probe.
    CheckingWorktree,
    /// Awaiting the bare-mirror-path probe.
    CheckingBare,
    /// Awaiting the bare clone.
    Cloning,
    /// Awaiting the fetch-refspec configuration after a clone.
    SettingRefspec,
    /// Awaiting the first fetch after a clone.
    FetchingAfterClone,
    /// Awaiting the refreshing fetch of an existing mirror.
    Fetching,
    /// Awaiting detection tier 1, the symbolic ref of the remote HEAD.
    ReadingSymbolicHead,
    /// Awaiting detection tier 2, the remote-show report.
    ShowingRemote,
    /// Awaiting detection tier 3, the probe of candidate `idx`.
    Probing { idx: u8 },
    /// Default branch known; awaiting the branch-existence probe.
    CheckingBranch { base: String },
    /// Awaiting the worktree creation itself.
    AddingWorktree,
}

/// The mathematical value of a [`MirrorPhase`].
pub enum PhaseV {
    CheckingWorktree,
    CheckingBare,
    Cloning,
    SettingRefspec,
    FetchingAfterClone,
    Fetching,
    ReadingSymbolicHead,
    ShowingRemote,
    Probing { idx: int },
    CheckingBranch { base: Seq<char> },
    AddingWorktree,
}

impl View for MirrorPhase {
    type V = PhaseV;

    open spec fn view(&self) -> PhaseV {
        match self {
            MirrorPhase::CheckingWorktree => PhaseV::CheckingWorktree,
            MirrorPhase::CheckingBare => PhaseV::CheckingBare,
            MirrorPhase::Cloning => PhaseV::Cloning,
            MirrorPhase::SettingRefspec => PhaseV::SettingRefspec,
            MirrorPhase::FetchingAfterClone => PhaseV::FetchingAfterClone,
            MirrorPhase::Fetching => PhaseV::Fetching,
            MirrorPhase::ReadingSymbolicHead => PhaseV::ReadingSymbolicHead,
            MirrorPhase::ShowingRemote => PhaseV::ShowingRemote,
            MirrorPhase::Probing { idx } => PhaseV::Probing { idx: *idx as int },
            MirrorPhase::CheckingBranch { base } => PhaseV::CheckingBranch { base: base@ },
            MirrorPhase::AddingWorktree => PhaseV::AddingWorktree,
        }
    }
}

/// A materialization run for one identity under one root.
#[derive(Debug, Clone)]
pub struct Lifecycle {
    issue: IssueRef,
    root: String,
    temp: String,
    bare: String,
    url: String,
    branch: String,
    phase: MirrorPhase,
}

/// The mathematical value of a [`Lifecycle`].
pub struct LifecycleV {
    pub issue: IssueId,
    pub root: Seq<char>,
    pub phase: PhaseV,
}

impl View for Lifecycle {
    type V = LifecycleV;

    closed spec fn view(&self) -> LifecycleV {
        LifecycleV { issue: self.issue@, root: self.root@, phase: self.phase@ }
    }
}

/// What one step of the machine produced: another request, a finished
/// workspace, or a fatal error.
#[derive(Debug)]
pub enum Step {
    Next(Lifecycle, GitRequest),
    Done(Workspace),
    Fail(GitError),
}

/// The mathematical value of a [`Step`].
pub enum StepV {
    Next(LifecycleV, RequestV),
    Done(WorkspaceV),
    Fail(GitErrorV),
}

impl View for Step {
    type V = StepV;

    open spec fn view(&self) -> StepV {
        match self {
            Step::Next(l, req) => StepV::Next(l@, req@),
            Step::Done(w) => StepV::Done(w@),
            Step::Fail(e) => StepV::Fail(e@),
        }
    }
}

/// The state a run starts in.
pub open spec fn start_spec(issue: IssueId, root: Seq<char>) -> LifecycleV {
    LifecycleV { issue, root, phase: PhaseV::CheckingWorktree }
}

/// The transition relation of the machine: what one event makes of
/// one state. `None` marks an event that does not answer the pending
/// request; the driver never produces one.
pub open spec fn lifecycle_step(v: LifecycleV, e: GitEventV) -> Option<StepV> {
    let temp = temp_path_spec(v.issue, v.root);
    let bare = bare_path_spec(v.issue, v.root);
    let url = clone_url_spec(v.issue);
    let branch = dir_name_spec(v.issue);
    match v.phase {
        PhaseV::CheckingWorktree => match e {
            GitEventV::Exists(true) => Some(
                StepV::Done(WorkspaceV { path: temp, issue: v.issue, created: false }),
            ),
            GitEventV::Exists(false) => Some(
                StepV::Next(
                    LifecycleV { phase: PhaseV::CheckingBare, ..v },
                    RequestV::CheckBare { path: bare },
                ),
            ),
            _ => None,
        },
        PhaseV::CheckingBare => match e {
            GitEventV::Exists(false) => Some(
                StepV::Next(
                    LifecycleV { phase: PhaseV::Cloning, ..v },
                    RequestV::Clone { url, dest: bare },
                ),
            ),
            GitEventV::Exists(true) => Some(
                StepV::Next(
                    LifecycleV { phase: PhaseV::Fetching, ..v },
                    RequestV::Fetch { bare },
                ),
            ),
            _ => None,
        },
        PhaseV::Cloning => match e {
            GitEventV::Succeeded(_) => Some(
                StepV::Next(
                    LifecycleV { phase: PhaseV::SettingRefspec, ..v },
                    RequestV::SetFetchRefspec { bare },
                ),
            ),
            GitEventV::Failed => Some(StepV::Fail(GitErrorV::CloneFailed { url })),
            GitEventV::NotRun => Some(StepV::Fail(GitErrorV::CloneNotRun)),
            _ => None,
        },
        PhaseV::SettingRefspec => match e {
            GitEventV::Succeeded(_) => Some(
                StepV::Next(
                    LifecycleV { phase: PhaseV::FetchingAfterClone, ..v },
                    RequestV::Fetch { bare },
                ),
            ),
            GitEventV::Failed => Some(StepV::Fail(GitErrorV::RefspecFailed)),
            GitEventV::NotRun => Some(StepV::Fail(GitErrorV::RefspecNotRun)),
            _ => None,
        },
        PhaseV::FetchingAfterClone => match e {
            GitEventV::Succeeded(_) => Some(
                StepV::Next(
                    LifecycleV { phase: PhaseV::ReadingSymbolicHead, ..v },
                    RequestV::ReadSymbolicHead { bare },
                ),
            ),
            GitEventV::Failed => Some(StepV::Fail(GitErrorV::CloneFetchFailed)),
            GitEventV::NotRun => Some(StepV::Fail(GitErrorV::CloneFetchNotRun)),
            _ => None,
        },
        PhaseV::Fetching => match e {
            GitEventV::Succeeded(_) => Some(
                StepV::Next(
                    LifecycleV { phase: PhaseV::ReadingSymbolicHead, ..v },
                    RequestV::ReadSymbolicHead { bare },
                ),
            ),
            GitEventV::Failed => Some(StepV::Fail(GitErrorV::FetchFailed)),
            GitEventV::NotRun => Some(StepV::Fail(GitErrorV::FetchNotRun)),
            _ => None,
        },
        PhaseV::ReadingSymbolicHead => match e {
            GitEventV::Succeeded(out) => match symbolic_ref_branch(out) {
                Some(b) => Some(
                    StepV::Next(
                        LifecycleV { phase: PhaseV::CheckingBranch { base: b }, ..v },
                        RequestV::VerifyRef { bare, refname: origin_ref_spec(branch) },
                    ),
                ),
                None => Some(
                    StepV::Next(
                        LifecycleV { phase: PhaseV::ShowingRemote, ..v },
                        RequestV::ShowRemote { bare },
                    ),
                ),
            },
            GitEventV::Failed => Some(
                StepV::Next(
                    LifecycleV { phase: PhaseV::ShowingRemote, ..v },
                    RequestV::ShowRemote { bare },
                ),
            ),
            GitEventV::NotRun => Some(StepV::Fail(GitErrorV::SymbolicRefNotRun)),
            _ => None,
        },
        PhaseV::ShowingRemote => match e {
            GitEventV::Succeeded(out) => match remote_show_branch(out) {
                Some(b) => Some(
                    StepV::Next(
                        LifecycleV { phase: PhaseV::CheckingBranch { base: b }, ..v },
                        RequestV::VerifyRef { bare, refname: origin_ref_spec(branch) },
                    ),
                ),
                None => Some(
                    StepV::Next(
                        LifecycleV { phase: PhaseV::Probing { idx: 0 }, ..v },
                        RequestV::VerifyRef { bare, refname: origin_ref_spec(candidate_spec(0)) },
                    ),
                ),
            },
            GitEventV::Failed => Some(
                StepV::Next(
                    LifecycleV { phase: PhaseV::Probing { idx: 0 }, ..v },
                    RequestV::VerifyRef { bare, refname: origin_ref_spec(candidate_spec(0)) },
                ),
            ),
            GitEventV::NotRun => Some(StepV::Fail(GitErrorV::RemoteShowNotRun)),
            _ => None,
        },
        PhaseV::Probing { idx } => match e {
            GitEventV::Succeeded(_) => Some(
                StepV::Next(
                    LifecycleV { phase: PhaseV::CheckingBranch { base: candidate_spec(idx) }, ..v },
                    RequestV::VerifyRef { bare, refname: origin_ref_spec(branch) },
                ),
            ),
            GitEventV::Failed => if idx + 1 < 3 {
                Some(
                    StepV::Next(
                        LifecycleV { phase: PhaseV::Probing { idx: idx + 1 }, ..v },
                        RequestV::VerifyRef {
                            bare,
                            refname: origin_ref_spec(candidate_spec(idx + 1)),
                        },
                    ),
                )
            } else {
                Some(StepV::Fail(GitErrorV::NoDefaultBranch))
            },
            GitEventV::NotRun => Some(StepV::Fail(GitErrorV::RevParseNotRun)),
            _ => None,
        },
        PhaseV::CheckingBranch { base } => match e {
            GitEventV::Exists(_) => None,
            GitEventV::Succeeded(_) => Some(
                StepV::Next(
                    LifecycleV { phase: PhaseV::AddingWorktree, ..v },
                    RequestV::AddWorktree {
                        bare,
                        dest: temp,
                        branch,
                        base,
                        track_existing: true,
                    },
                ),
            ),
            _ => Some(
                StepV::Next(
                    LifecycleV { phase: PhaseV::AddingWorktree, ..v },
                    RequestV::AddWorktree {
                        bare,
                        dest: temp,
                        branch,
                        base,
                        track_existing: false,
                    },
                ),
            ),
        },
        PhaseV::AddingWorktree => match e {
            GitEventV::Succeeded(_) => Some(
                StepV::Done(WorkspaceV { path: temp, issue: v.issue, created: true }),
            ),
            GitEventV::Failed => Some(StepV::Fail(GitErrorV::WorktreeFailed { branch })),
            GitEventV::NotRun => Some(StepV::Fail(GitErrorV::WorktreeNotRun)),
            _ => None,
        },
    }
}

impl Lifecycle {
    /// The cached derived strings match the identity and root.
    pub closed spec fn wf(self) -> bool {
        &&& self.temp@ == temp_path_spec(self.issue@, self.root@)
        &&& self.bare@ == bare_path_spec(self.issue@, self.root@)
        &&& self.url@ == clone_url_spec(self.issue@)
        &&& self.branch@ == dir_name_spec(self.issue@)
    }

    /// Begin materializing `issue` under `root`: the first question is
    /// always whether the worktree already exists.
    pub fn start(issue: IssueRef, root: String) -> (r: (Lifecycle, GitRequest))
        ensures
            r.0.wf(),
            r.0@ == start_spec(issue@, root@),
            r.1@ == (RequestV::CheckWorktree { path: temp_path_spec(issue@, root@) }),
    {
        let temp = issue.temp_path(root.as_str());
        let bare = issue.bare_clone_path(root.as_str());
        let url = issue.clone_url();
        let branch = issue.branch_name();
        let req = GitRequest::CheckWorktree { path: temp.clone() };
        let l = Lifecycle {
            issue,
            root,
            temp,
            bare,
            url,
            branch,
            phase: MirrorPhase::CheckingWorktree,
        };
        (l, req)
    }

    /// Feed the outcome of the pending request into the machine.
    pub fn step(self, ev: GitEvent) -> (r: Step)
        requires
            self.wf(),
            (lifecycle_step(self@, ev@) is Some),
        ensures
            Some(r@) == lifecycle_step(self@, ev@),
            (r matches Step::Next(l, _) ==> l.wf()),
    {
        let ghost v = self@;
        let Lifecycle { issue, root, temp, bare, url, branch, phase } = self;
        match phase {
            MirrorPhase::CheckingWorktree => match ev {
                GitEvent::Exists(true) => Step::Done(
                    Workspace { path: temp, issue, created: false },
                ),
                GitEvent::Exists(false) => {
                    let req = GitRequest::CheckBare { path: bare.clone() };
                    Step::Next(
                        Lifecycle {
                            issue,
                            root,
                            temp,
                            bare,
                            url,
                            branch,
                            phase: MirrorPhase::CheckingBare,
                        },
                        req,
                    )
                },
                _ => {
                    proof {
                        assert(false);
                    }
                    Step::Fail(GitError::NoDefaultBranch)
                },
            },
            MirrorPhase::CheckingBare => match ev {
                GitEvent::Exists(false) => {
                    let req = GitRequest::Clone { url: url.clone(), dest: bare.clone() };
                    Step::Next(
                        Lifecycle {
                            issue,
                            root,
                            temp,
                            bare,
                            url,
                            branch,
                            phase: MirrorPhase::Cloning,
                        },
                        req,
                    )
                },
                GitEvent::Exists(true) => {
                    let req = GitRequest::Fetch { bare: bare.clone() };
                    Step::Next(
                        Lifecycle {
                            issue,
                            root,
                            temp,
                            bare,
                            url,
                            branch,
                            phase: MirrorPhase::Fetching,
                        },
                        req,
                    )
                },
                _ => {
                    proof {
                        assert(false);
                    }
                    Step::Fail(GitError::NoDefaultBranch)
                },
            },
            MirrorPhase::Cloning => match ev {
                GitEvent::Succeeded(_) => {
                    let req = GitRequest::SetFetchRefspec { bare: bare.clone() };
                    Step::Next(
                        Lifecycle {
                            issue,
                            root,
                            temp,
                            bare,
                            url,
                            branch,
                            phase: MirrorPhase::SettingRefspec,
                        },
                        req,
                    )
                },
                GitEvent::Failed => Step::Fail(GitError::CloneFailed { url }),
                GitEvent::NotRun => Step::Fail(GitError::CloneNotRun),
                _ => {
                    proof {
                        assert(false);
                    }
                    Step::Fail(GitError::NoDefaultBranch)
                },
            },
            MirrorPhase::SettingRefspec => match ev {
                GitEvent::Succeeded(_) => {
                    let req = GitRequest::Fetch { bare: bare.clone() };
                    Step::Next(
                        Lifecycle {
                            issue,
                            root,
                            temp,
                            bare,
                            url,
                            branch,
                            phase: MirrorPhase::FetchingAfterClone,
                        },
                        req,
                    )
                },
                GitEvent::Failed => Step::Fail(GitError::RefspecFailed),
                GitEvent::NotRun => Step::Fail(GitError::RefspecNotRun),
                _ => {
                    proof {
                        assert(false);
                    }
                    Step::Fail(GitError::NoDefaultBranch)
                },
            },
            MirrorPhase::FetchingAfterClone => match ev {
                GitEvent::Succeeded(_) => {
                    let req = GitRequest::ReadSymbolicHead { bare: bare.clone() };
                    Step::Next(
                        Lifecycle {
                            issue,
                            root,
                            temp,
                            bare,
                            url,
                            branch,
                            phase: MirrorPhase::ReadingSymbolicHead,
                        },
                        req,
                    )
                },
                GitEvent::Failed => Step::Fail(GitError::CloneFetchFailed),
                GitEvent::NotRun => Step::Fail(GitError::CloneFetchNotRun),
                _ => {
                    proof {
                        assert(false);
                    }
                    Step::Fail(GitError::NoDefaultBranch)
                },
            },
            MirrorPhase::Fetching => match ev {
                GitEvent::Succeeded(_) => {
                    let req = GitRequest::ReadSymbolicHead { bare: bare.clone() };
                    Step::Next(
                        Lifecycle {
                            issue,
                            root,
                            temp,
                            bare,
                            url,
                            branch,
                            phase: MirrorPhase::ReadingSymbolicHead,
                        },
                        req,
                    )
                },
                GitEvent::Failed => Step::Fail(GitError::FetchFailed),
                GitEvent::NotRun => Step::Fail(GitError::FetchNotRun),
                _ => {
                    proof {
                        assert(false);
                    }
                    Step::Fail(GitError::NoDefaultBranch)
                },
            },
            MirrorPhase::ReadingSymbolicHead => match ev {
                GitEvent::Succeeded(out) => match crate::git::default_branch_from_symbolic_ref(
                    out.as_str(),
                ) {
                    Some(b) => {
                        let req = GitRequest::VerifyRef {
                            bare: bare.clone(),
                            refname: origin_ref(branch.as_str()),
                        };
                        Step::Next(
                            Lifecycle {
                                issue,
                                root,
                                temp,
                                bare,
                                url,
                                branch,
                                phase: MirrorPhase::CheckingBranch { base: b },
                            },
                            req,
                        )
                    },
                    None => {
                        let req = GitRequest::ShowRemote { bare: bare.clone() };
                        Step::Next(
                            Lifecycle {
                                issue,
                                root,
                                temp,
                                bare,
                                url,
                                branch,
                                phase: MirrorPhase::ShowingRemote,
                            },
                            req,
                        )
                    },
                },
                GitEvent::Failed => {
                    let req = GitRequest::ShowRemote { bare: bare.clone() };
                    Step::Next(
                        Lifecycle {
                            issue,
                            root,
                            temp,
                            bare,
                            url,
                            branch,
                            phase: MirrorPhase::ShowingRemote,
                        },
                        req,
                    )
                },
                GitEvent::NotRun => Step::Fail(GitError::SymbolicRefNotRun),
                _ => {
                    proof {
                        assert(false);
                    }
                    Step::Fail(GitError::NoDefaultBranch)
                },
            },
            MirrorPhase::ShowingRemote => match ev {
                GitEvent::Succeeded(out) => match crate::git::default_branch_from_remote_show(
                    out.as_str(),
                ) {
                    Some(b) => {
                        let req = GitRequest::VerifyRef {
                            bare: bare.clone(),
                            refname: origin_ref(branch.as_str()),
                        };
                        Step::Next(
                            Lifecycle {
                                issue,
                                root,
                                temp,
                                bare,
                                url,
                                branch,
                                phase: MirrorPhase::CheckingBranch { base: b },
                            },
                            req,
                        )
                    },
                    None => {
                        let c = candidate_name(0);
                        let req = GitRequest::VerifyRef {
                            bare: bare.clone(),
                            refname: origin_ref(c.as_str()),
                        };
                        Step::Next(
                            Lifecycle {
                                issue,
                                root,
                                temp,
                                bare,
                                url,
                                branch,
                                phase: MirrorPhase::Probing { idx: 0 },
                            },
                            req,
                        )
                    },
                },
                GitEvent::Failed => {
                    let c = candidate_name(0);
                    let req = GitRequest::VerifyRef {
                        bare: bare.clone(),
                        refname: origin_ref(c.as_str()),
                    };
                    Step::Next(
                        Lifecycle {
                            issue,
                            root,
                            temp,
                            bare,
                            url,
                            branch,
                            phase: MirrorPhase::Probing { idx: 0 },
                        },
                        req,
                    )
                },
                GitEvent::NotRun => Step::Fail(GitError::RemoteShowNotRun),
                _ => {
                    proof {
                        assert(false);
                    }
                    Step::Fail(GitError::NoDefaultBranch)
                },
            },
            MirrorPhase::Probing { idx } => match ev {
                GitEvent::Succeeded(_) => {
                    let base = candidate_name(idx);
                    let req = GitRequest::VerifyRef {
                        bare: bare.clone(),
                        refname: origin_ref(branch.as_str()),
                    };
                    Step::Next(
                        Lifecycle {
                            issue,
                            root,
                            temp,
                            bare,
                            url,
                            branch,
                            phase: MirrorPhase::CheckingBranch { base },
                        },
                        req,
                    )
                },
                GitEvent::Failed => {
                    if idx < 2 {
                        let c = candidate_name(idx + 1);
                        let req = GitRequest::VerifyRef {
                            bare: bare.clone(),
                            refname: origin_ref(c.as_str()),
                        };
                        Step::Next(
                            Lifecycle {
                                issue,
                                root,
                                temp,
                                bare,
                                url,
                                branch,
                                phase: MirrorPhase::Probing { idx: idx + 1 },
                            },
                            req,
                        )
                    } else {
                        Step::Fail(GitError::NoDefaultBranch)
                    }
                },
                GitEvent::NotRun => Step::Fail(GitError::RevParseNotRun),
                _ => {
                    proof {
                        assert(false);
                    }
                    Step::Fail(GitError::NoDefaultBranch)
                },
            },
            MirrorPhase::CheckingBranch { base } => match ev {
                GitEvent::Exists(_) => {
                    proof {
                        assert(false);
                    }
                    Step::Fail(GitError::NoDefaultBranch)
                },
                GitEvent::Succeeded(_) => {
                    let req = GitRequest::AddWorktree {
                        bare: bare.clone(),
                        dest: temp.clone(),
                        branch: branch.clone(),
                        base,
                        track_existing: true,
                    };
                    Step::Next(
                        Lifecycle {
                            issue,
                            root,
                            temp,
                            bare,
                            url,
                            branch,
                            phase: MirrorPhase::AddingWorktree,
                        },
                        req,
                    )
                },
                _ => {
                    let req = GitRequest::AddWorktree {
                        bare: bare.clone(),
                        dest: temp.clone(),
                        branch: branch.clone(),
                        base,
                        track_existing: false,
                    };
                    Step::Next(
                        Lifecycle {
                            issue,
                            root,
                            temp,
                            bare,
                            url,
                            branch,
                            phase: MirrorPhase::AddingWorktree,
                        },
                        req,
                    )
                },
            },
            MirrorPhase::AddingWorktree => match ev {
                GitEvent::Succeeded(_) => Step::Done(
                    Workspace { path: temp, issue, created: true },
                ),
                GitEvent::Failed => Step::Fail(GitError::WorktreeFailed { branch }),
                GitEvent::NotRun => Step::Fail(GitError::WorktreeNotRun),
                _ => {
                    proof {
                        assert(false);
                    }
                    Step::Fail(GitError::NoDefaultBranch)
                },
            },
        }
    }
}

/// Opening the same identity twice performs real work only once: the
/// run that finds the worktree already on disk ends immediately,
/// reports `created == false`, and returns exactly the path that a
/// completed creating run reports — and every completed run, however
/// it got there, returns that same path for its identity.
pub proof fn lemma_open_or_create_idempotent(issue: IssueId, root: Seq<char>)
    ensures
        lifecycle_step(start_spec(issue, root), GitEventV::Exists(true)) == Some(
            StepV::Done(
                WorkspaceV { path: temp_path_spec(issue, root), issue, created: false },
            ),
        ),
        forall|v: LifecycleV, e: GitEventV|
            match #[trigger] lifecycle_step(v, e) {
                Some(StepV::Done(w)) => w.path == temp_path_spec(v.issue, v.root) && w.issue
                    == v.issue && (w.created <==> v.phase is AddingWorktree),
                _ => true,
            },
{
}

/// Default-branch detection falls back tier by tier: when the
/// symbolic-ref probe fails, the machine asks for the remote-show
/// report, and a report that names a HEAD branch settles the base
/// branch with no further probing.
pub proof fn lemma_detection_tier_two(v: LifecycleV, out: Seq<char>, b: Seq<char>)
    requires
        v.phase is ReadingSymbolicHead,
        remote_show_branch(out) == Some(b),
    ensures
        lifecycle_step(v, GitEventV::Failed) == Some(
            StepV::Next(
                LifecycleV { phase: PhaseV::ShowingRemote, ..v },
                RequestV::ShowRemote { bare: bare_path_spec(v.issue, v.root) },
            ),
        ),
        lifecycle_step(LifecycleV { phase: PhaseV::ShowingRemote, ..v }, GitEventV::Succeeded(out))
            == Some(
            StepV::Next(
                LifecycleV { phase: PhaseV::CheckingBranch { base: b }, ..v },
                RequestV::VerifyRef {
                    bare: bare_path_spec(v.issue, v.root),
                    refname: origin_ref_spec(dir_name_spec(v.issue)),
                },
            ),
        ),
{
}

/// Exhausting all three tiers — no symbolic ref, no usable remote-show
/// report, and all three candidate probes failing — is the one way
/// detection aborts.
pub proof fn lemma_detection_exhaustion(v: LifecycleV)
    requires
        v.phase matches PhaseV::Probing { idx } && idx == 2,
    ensures
        lifecycle_step(v, GitEventV::Failed) == Some(StepV::Fail(GitErrorV::NoDefaultBranch)),
{
}

} // verus!
