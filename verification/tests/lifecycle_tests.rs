use worktree_io::workspace::{GitError, GitEvent, GitRequest, Lifecycle, Step};
use worktree_io::IssueRef;

fn start(reference: &str) -> (Lifecycle, GitRequest) {
    let issue = IssueRef::parse(reference).unwrap();
    Lifecycle::start(issue, "/root".to_string())
}

fn next(step: Step) -> (Lifecycle, GitRequest) {
    match step {
        Step::Next(l, req) => (l, req),
        Step::Done(w) => panic!("run finished early at {}", w.path),
        Step::Fail(e) => panic!("run failed early: {}", e.message()),
    }
}

#[test]
fn existing_worktree_is_reused_without_any_git_work() {
    let (l, req) = start("acme/api#7");
    match req {
        GitRequest::CheckWorktree { path } => {
            assert_eq!(path, "/root/worktrees/github/acme/api/issue-7")
        }
        other => panic!("unexpected first request: {other:?}"),
    }
    match l.step(GitEvent::Exists(true)) {
        Step::Done(w) => {
            assert!(!w.created);
            assert_eq!(w.path, "/root/worktrees/github/acme/api/issue-7");
        }
        _ => panic!("reuse should finish immediately"),
    }
}

#[test]
fn fresh_identity_clones_configures_fetches_and_creates() {
    let (l, _req) = start("acme/api#7");
    let (l, req) = next(l.step(GitEvent::Exists(false)));
    match req {
        GitRequest::CheckBare { path } => assert_eq!(path, "/root/worktrees/github/acme/api"),
        other => panic!("expected bare probe, got {other:?}"),
    }
    let (l, req) = next(l.step(GitEvent::Exists(false)));
    match req {
        GitRequest::Clone { url, dest } => {
            assert_eq!(url, "https://github.com/acme/api.git");
            assert_eq!(dest, "/root/worktrees/github/acme/api");
        }
        other => panic!("expected clone, got {other:?}"),
    }
    let (l, req) = next(l.step(GitEvent::Succeeded(String::new())));
    assert!(matches!(req, GitRequest::SetFetchRefspec { .. }));
    let (l, req) = next(l.step(GitEvent::Succeeded(String::new())));
    assert!(matches!(req, GitRequest::Fetch { .. }));
    let (l, req) = next(l.step(GitEvent::Succeeded(String::new())));
    assert!(matches!(req, GitRequest::ReadSymbolicHead { .. }));
    // Tier 1 answers: the symbolic ref names main.
    let (l, req) = next(l.step(GitEvent::Succeeded("refs/remotes/origin/main\n".to_string())));
    match req {
        GitRequest::VerifyRef { refname, .. } => {
            assert_eq!(refname, "refs/remotes/origin/issue-7")
        }
        other => panic!("expected branch probe, got {other:?}"),
    }
    // The branch does not exist remotely: create it from origin/main.
    let (l, req) = next(l.step(GitEvent::Failed));
    match req {
        GitRequest::AddWorktree { dest, branch, base, track_existing, .. } => {
            assert_eq!(dest, "/root/worktrees/github/acme/api/issue-7");
            assert_eq!(branch, "issue-7");
            assert_eq!(base, "main");
            assert!(!track_existing);
        }
        other => panic!("expected worktree add, got {other:?}"),
    }
    match l.step(GitEvent::Succeeded(String::new())) {
        Step::Done(w) => {
            assert!(w.created);
            assert_eq!(w.path, "/root/worktrees/github/acme/api/issue-7");
        }
        _ => panic!("creation should finish the run"),
    }
}

#[test]
fn existing_mirror_is_fetched_not_cloned() {
    let (l, _req) = start("acme/api#7");
    let (l, _req) = next(l.step(GitEvent::Exists(false)));
    let (_l, req) = next(l.step(GitEvent::Exists(true)));
    assert!(matches!(req, GitRequest::Fetch { .. }));
}

#[test]
fn existing_remote_branch_is_tracked() {
    let (l, _req) = start("acme/api#7");
    let (l, _req) = next(l.step(GitEvent::Exists(false)));
    let (l, _req) = next(l.step(GitEvent::Exists(true)));
    let (l, _req) = next(l.step(GitEvent::Succeeded(String::new())));
    let (l, _req) = next(l.step(GitEvent::Succeeded("refs/remotes/origin/main".to_string())));
    let (_l, req) = next(l.step(GitEvent::Succeeded(String::new())));
    match req {
        GitRequest::AddWorktree { branch, track_existing, .. } => {
            assert_eq!(branch, "issue-7");
            assert!(track_existing);
        }
        other => panic!("expected worktree add, got {other:?}"),
    }
}

#[test]
fn detection_falls_back_to_remote_show() {
    let (l, _req) = start("acme/api#7");
    let (l, _req) = next(l.step(GitEvent::Exists(false)));
    let (l, _req) = next(l.step(GitEvent::Exists(true)));
    let (l, _req) = next(l.step(GitEvent::Succeeded(String::new())));
    // Tier 1 fails: no symbolic ref.
    let (l, req) = next(l.step(GitEvent::Failed));
    assert!(matches!(req, GitRequest::ShowRemote { .. }));
    // Tier 2 answers from the free-text report.
    let report = "* remote origin\n  Fetch URL: x\n  HEAD branch: trunk\n";
    let (l, req) = next(l.step(GitEvent::Succeeded(report.to_string())));
    assert!(matches!(req, GitRequest::VerifyRef { .. }));
    let (_l, req) = next(l.step(GitEvent::Failed));
    match req {
        GitRequest::AddWorktree { base, .. } => assert_eq!(base, "trunk"),
        other => panic!("expected worktree add, got {other:?}"),
    }
}

#[test]
fn detection_probes_the_candidate_list_in_order() {
    let (l, _req) = start("acme/api#7");
    let (l, _req) = next(l.step(GitEvent::Exists(false)));
    let (l, _req) = next(l.step(GitEvent::Exists(true)));
    let (l, _req) = next(l.step(GitEvent::Succeeded(String::new())));
    let (l, _req) = next(l.step(GitEvent::Failed));
    // Tier 2 yields nothing useful.
    let (l, req) = next(l.step(GitEvent::Succeeded("no head line here".to_string())));
    match req {
        GitRequest::VerifyRef { refname, .. } => assert_eq!(refname, "refs/remotes/origin/main"),
        other => panic!("expected probe of main, got {other:?}"),
    }
    let (l, req) = next(l.step(GitEvent::Failed));
    match req {
        GitRequest::VerifyRef { refname, .. } => {
            assert_eq!(refname, "refs/remotes/origin/master")
        }
        other => panic!("expected probe of master, got {other:?}"),
    }
    // master exists: it becomes the base.
    let (l, _req) = next(l.step(GitEvent::Succeeded(String::new())));
    let (_l, req) = next(l.step(GitEvent::Failed));
    match req {
        GitRequest::AddWorktree { base, .. } => assert_eq!(base, "master"),
        other => panic!("expected worktree add, got {other:?}"),
    }
}

#[test]
fn exhausting_all_tiers_is_fatal() {
    let (l, _req) = start("acme/api#7");
    let (l, _req) = next(l.step(GitEvent::Exists(false)));
    let (l, _req) = next(l.step(GitEvent::Exists(true)));
    let (l, _req) = next(l.step(GitEvent::Succeeded(String::new())));
    let (l, _req) = next(l.step(GitEvent::Failed));
    let (l, _req) = next(l.step(GitEvent::Failed));
    let (l, _req) = next(l.step(GitEvent::Failed));
    let (l, _req) = next(l.step(GitEvent::Failed));
    match l.step(GitEvent::Failed) {
        Step::Fail(e) => {
            assert!(matches!(e, GitError::NoDefaultBranch));
            assert_eq!(e.message(), "Could not detect default branch for the repository");
        }
        _ => panic!("exhausted detection must fail"),
    }
}

#[test]
fn clone_failure_aborts_with_the_clone_error() {
    let (l, _req) = start("acme/api#7");
    let (l, _req) = next(l.step(GitEvent::Exists(false)));
    let (l, _req) = next(l.step(GitEvent::Exists(false)));
    match l.step(GitEvent::Failed) {
        Step::Fail(e) => {
            assert!(matches!(e, GitError::CloneFailed { .. }));
            assert_eq!(
                e.message(),
                "git clone --bare failed for https://github.com/acme/api.git"
            );
        }
        _ => panic!("clone failure must abort"),
    }
}

#[test]
fn worktree_add_failure_names_the_branch() {
    let (l, _req) = start("acme/api#7");
    let (l, _req) = next(l.step(GitEvent::Exists(false)));
    let (l, _req) = next(l.step(GitEvent::Exists(true)));
    let (l, _req) = next(l.step(GitEvent::Succeeded(String::new())));
    let (l, _req) = next(l.step(GitEvent::Succeeded("refs/remotes/origin/main".to_string())));
    let (l, _req) = next(l.step(GitEvent::Failed));
    match l.step(GitEvent::Failed) {
        Step::Fail(e) => {
            assert_eq!(e.message(), "git worktree add failed for branch issue-7");
        }
        _ => panic!("worktree failure must abort"),
    }
}
