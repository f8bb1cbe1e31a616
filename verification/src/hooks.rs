//! Hook script rendering: user scripts receive the resolved identity
//! as `{{...}}` template variables. Writing and running the rendered
//! script is process I/O and lives outside the verified library.

use vstd::prelude::*;

use crate::issue::{dir_name_spec, id_owner, id_repo, IssueId, IssueRef};
use crate::text;
use crate::text::{dec_str, replace_spec};

verus! {

/// The template variables a hook script may use.
#[derive(Debug, Clone)]
pub struct HookContext {
    pub owner: String,
    pub repo: String,
    pub issue: String,
    pub branch: String,
    pub worktree_path: String,
}

/// The mathematical value of a [`HookContext`].
pub struct HookContextV {
    pub owner: Seq<char>,
    pub repo: Seq<char>,
    pub issue: Seq<char>,
    pub branch: Seq<char>,
    pub worktree_path: Seq<char>,
}

impl View for HookContext {
    type V = HookContextV;

    open spec fn view(&self) -> HookContextV {
        HookContextV {
            owner: self.owner@,
            repo: self.repo@,
            issue: self.issue@,
            branch: self.branch@,
            worktree_path: self.worktree_path@,
        }
    }
}

/// A template with each `{{...}}` variable replaced by its value, in
/// the fixed order owner, repo, issue, branch, worktree_path.
pub open spec fn render_spec(c: HookContextV, template: Seq<char>) -> Seq<char> {
    replace_spec(
        replace_spec(
            replace_spec(
                replace_spec(
                    replace_spec(template, "{{owner}}"@, c.owner),
                    "{{repo}}"@,
                    c.repo,
                ),
                "{{issue}}"@,
                c.issue,
            ),
            "{{branch}}"@,
            c.branch,
        ),
        "{{worktree_path}}"@,
        c.worktree_path,
    )
}

impl HookContext {
    /// Substitute every template variable with its value.
    pub fn render(&self, template: &str) -> (r: String)
        ensures
            r@ == render_spec(self@, template@),
    {
        proof {
            reveal_strlit("{{owner}}");
            reveal_strlit("{{repo}}");
            reveal_strlit("{{issue}}");
            reveal_strlit("{{branch}}");
            reveal_strlit("{{worktree_path}}");
        }
        let a = text::replace(template, "{{owner}}", self.owner.as_str());
        let b = text::replace(a.as_str(), "{{repo}}", self.repo.as_str());
        let c = text::replace(b.as_str(), "{{issue}}", self.issue.as_str());
        let d = text::replace(c.as_str(), "{{branch}}", self.branch.as_str());
        text::replace(d.as_str(), "{{worktree_path}}", self.worktree_path.as_str())
    }
}

/// The issue variable a context carries: the issue number for a
/// GitHub identity, the UUID for a Linear one.
pub open spec fn issue_var_spec(i: IssueId) -> Seq<char> {
    match i {
        IssueId::GitHub { number, .. } => dec_str(number as int),
        IssueId::Linear { id, .. } => id,
    }
}

/// The hook context of an identity checked out at `worktree_path`.
pub fn build_hook_context(issue: &IssueRef, worktree_path: &str) -> (r: HookContext)
    ensures
        r@.owner == id_owner(issue@),
        r@.repo == id_repo(issue@),
        r@.issue == issue_var_spec(issue@),
        r@.branch == dir_name_spec(issue@),
        r@.worktree_path == worktree_path@,
{
    let (owner, repo, issue_str) = match issue {
        IssueRef::GitHub { owner, repo, number } => (
            owner.clone(),
            repo.clone(),
            text::u64_to_dec(*number),
        ),
        IssueRef::Linear { owner, repo, id } => (owner.clone(), repo.clone(), id.clone()),
    };
    HookContext {
        owner,
        repo,
        issue: issue_str,
        branch: issue.branch_name(),
        worktree_path: worktree_path.to_owned(),
    }
}

} // verus!
