//! Issue identities: the canonical reference type, its parse errors,
//! UUID validation, and the derived branch names, clone URLs and
//! filesystem paths.

use vstd::prelude::*;
use vstd::string::StrSliceExecFns;
use vstd::string::StringExecFns;

use crate::text;
use crate::text::{dec_str, is_uuid_seq, u64_to_dec};

pub mod laws;
pub mod parse;

verus! {

/// The mathematical value of an [`IssueRef`].
pub enum IssueId {
    GitHub { owner: Seq<char>, repo: Seq<char>, number: u64 },
    Linear { owner: Seq<char>, repo: Seq<char>, id: Seq<char> },
}

/// A reference to an issue that identifies a workspace.
#[derive(Debug, Clone, PartialEq)]
pub enum IssueRef {
    GitHub { owner: String, repo: String, number: u64 },
    /// A Linear issue identified by its UUID, paired with the GitHub
    /// repo that hosts the code for that project.
    Linear { owner: String, repo: String, id: String },
}

impl View for IssueRef {
    type V = IssueId;

    open spec fn view(&self) -> IssueId {
        match self {
            IssueRef::GitHub { owner, repo, number } => IssueId::GitHub {
                owner: owner@,
                repo: repo@,
                number: *number,
            },
            IssueRef::Linear { owner, repo, id } => IssueId::Linear {
                owner: owner@,
                repo: repo@,
                id: id@,
            },
        }
    }
}

/// The invariant every parsed identity satisfies: owner and repo are
/// nonempty, and a Linear id is a canonical UUID.
pub open spec fn id_wf(i: IssueId) -> bool {
    match i {
        IssueId::GitHub { owner, repo, .. } => owner.len() > 0 && repo.len() > 0,
        IssueId::Linear { owner, repo, id } => owner.len() > 0 && repo.len() > 0 && is_uuid_seq(
            id,
        ),
    }
}

/// The owner component of an identity.
pub open spec fn id_owner(i: IssueId) -> Seq<char> {
    match i {
        IssueId::GitHub { owner, .. } => owner,
        IssueId::Linear { owner, .. } => owner,
    }
}

/// The repo component of an identity.
pub open spec fn id_repo(i: IssueId) -> Seq<char> {
    match i {
        IssueId::GitHub { repo, .. } => repo,
        IssueId::Linear { repo, .. } => repo,
    }
}

/// Options extracted from a `worktree://` deep link.
#[derive(Debug, Clone, Default)]
pub struct DeepLinkOptions {
    /// Editor override from the `editor` query param. May be a symbolic
    /// name (`cursor`, `code`, `zed`, `nvim`, etc.) or a raw
    /// percent-decoded command.
    pub editor: Option<String>,
}

impl View for DeepLinkOptions {
    type V = Option<Seq<char>>;

    open spec fn view(&self) -> Option<Seq<char>> {
        match &self.editor {
            Some(e) => Some(e@),
            None => None,
        }
    }
}

/// The mathematical value of a [`ParseError`].
pub enum ParseFault {
    InvalidUrl { input: Seq<char> },
    ExpectedIssueUrl { input: Seq<char> },
    InvalidUrlNumber { text: Seq<char> },
    InvalidQueryNumber { text: Seq<char> },
    InvalidUuid { id: Seq<char> },
    InvalidShorthandUuid { id: Seq<char> },
    InvalidShorthand { input: Seq<char> },
    InvalidShorthandNumber { text: Seq<char> },
    InvalidOwner { text: Seq<char> },
    InvalidRepo { text: Seq<char> },
    MissingOwner,
    MissingRepo,
    MissingIssue,
    Unrecognized { input: Seq<char> },
}

/// Why an input failed to parse as an issue reference.
#[derive(Debug, Clone, PartialEq)]
pub enum ParseError {
    /// The input looked like a URL but had no `scheme://` part.
    InvalidUrl { input: String },
    /// A URL whose path is not `owner/repo/issues/number`.
    ExpectedIssueUrl { input: String },
    /// The number segment of an issue URL is not a `u64`.
    InvalidUrlNumber { text: String },
    /// The `issue` query param of a deep link is not a `u64`.
    InvalidQueryNumber { text: String },
    /// The `linear_id` query param is not a canonical UUID.
    InvalidUuid { id: String },
    /// The id after `@` in a shorthand is not a canonical UUID.
    InvalidShorthandUuid { id: String },
    /// A shorthand whose owner or repo part is empty.
    InvalidShorthand { input: String },
    /// The number after `#` in a shorthand is not a `u64`.
    InvalidShorthandNumber { text: String },
    /// A deep link whose `owner` query param cannot stand as a path
    /// component.
    InvalidOwner { text: String },
    /// A deep link whose `repo` query param cannot stand as a path
    /// component.
    InvalidRepo { text: String },
    /// A deep link without an `owner` query param.
    MissingOwner,
    /// A deep link without a `repo` query param.
    MissingRepo,
    /// A deep link without an `issue` query param.
    MissingIssue,
    /// None of the accepted forms matched.
    Unrecognized { input: String },
}

impl View for ParseError {
    type V = ParseFault;

    open spec fn view(&self) -> ParseFault {
        match self {
            ParseError::InvalidUrl { input } => ParseFault::InvalidUrl { input: input@ },
            ParseError::ExpectedIssueUrl { input } => ParseFault::ExpectedIssueUrl {
                input: input@,
            },
            ParseError::InvalidUrlNumber { text } => ParseFault::InvalidUrlNumber { text: text@ },
            ParseError::InvalidQueryNumber { text } => ParseFault::InvalidQueryNumber {
                text: text@,
            },
            ParseError::InvalidUuid { id } => ParseFault::InvalidUuid { id: id@ },
            ParseError::InvalidShorthandUuid { id } => ParseFault::InvalidShorthandUuid {
                id: id@,
            },
            ParseError::InvalidShorthand { input } => ParseFault::InvalidShorthand {
                input: input@,
            },
            ParseError::InvalidShorthandNumber { text } => ParseFault::InvalidShorthandNumber {
                text: text@,
            },
            ParseError::InvalidOwner { text } => ParseFault::InvalidOwner { text: text@ },
            ParseError::InvalidRepo { text } => ParseFault::InvalidRepo { text: text@ },
            ParseError::MissingOwner => ParseFault::MissingOwner,
            ParseError::MissingRepo => ParseFault::MissingRepo,
            ParseError::MissingIssue => ParseFault::MissingIssue,
            ParseError::Unrecognized { input } => ParseFault::Unrecognized { input: input@ },
        }
    }
}

/// The human-readable message of a parse fault.
pub open spec fn fault_message(f: ParseFault) -> Seq<char> {
    match f {
        ParseFault::InvalidUrl { input } => "Invalid URL: "@ + input,
        ParseFault::ExpectedIssueUrl { input } =>
            "Expected GitHub issue URL like https://github.com/owner/repo/issues/42, got: "@
            + input,
        ParseFault::InvalidUrlNumber { text } => "Invalid issue number in URL: "@ + text,
        ParseFault::InvalidQueryNumber { text } => "Invalid issue number: "@ + text,
        ParseFault::InvalidUuid { id } => "Invalid Linear issue UUID: "@ + id,
        ParseFault::InvalidShorthandUuid { id } => "Invalid Linear issue UUID in shorthand: "@
            + id,
        ParseFault::InvalidShorthand { input } => "Invalid shorthand format: "@ + input,
        ParseFault::InvalidShorthandNumber { text } => "Invalid issue number in shorthand: "@
            + text,
        ParseFault::InvalidOwner { text } => "Invalid 'owner' query param: "@ + text,
        ParseFault::InvalidRepo { text } => "Invalid 'repo' query param: "@ + text,
        ParseFault::MissingOwner => "Missing 'owner' query param"@,
        ParseFault::MissingRepo => "Missing 'repo' query param"@,
        ParseFault::MissingIssue => "Missing 'issue' query param"@,
        ParseFault::Unrecognized { input } => "Could not parse issue reference: \""@ + input
            + "\"\nSupported formats:\n- https://github.com/owner/repo/issues/42\n- worktree://open?owner=owner&repo=repo&issue=42\n- worktree://open?owner=owner&repo=repo&linear_id=<uuid>\n- owner/repo#42\n- owner/repo@<linear-uuid>"@,
    }
}

impl ParseError {
    /// The error rendered as a single human-readable message.
    pub fn message(&self) -> (r: String)
        ensures
            r@ == fault_message(self@),
    {
        match self {
            ParseError::InvalidUrl { input } => {
                let mut s = String::from_str("Invalid URL: ");
                s.append(input.as_str());
                s
            },
            ParseError::ExpectedIssueUrl { input } => {
                let mut s = String::from_str(
                    "Expected GitHub issue URL like https://github.com/owner/repo/issues/42, got: ",
                );
                s.append(input.as_str());
                s
            },
            ParseError::InvalidUrlNumber { text } => {
                let mut s = String::from_str("Invalid issue number in URL: ");
                s.append(text.as_str());
                s
            },
            ParseError::InvalidQueryNumber { text } => {
                let mut s = String::from_str("Invalid issue number: ");
                s.append(text.as_str());
                s
            },
            ParseError::InvalidUuid { id } => {
                let mut s = String::from_str("Invalid Linear issue UUID: ");
                s.append(id.as_str());
                s
            },
            ParseError::InvalidShorthandUuid { id } => {
                let mut s = String::from_str("Invalid Linear issue UUID in shorthand: ");
                s.append(id.as_str());
                s
            },
            ParseError::InvalidShorthand { input } => {
                let mut s = String::from_str("Invalid shorthand format: ");
                s.append(input.as_str());
                s
            },
            ParseError::InvalidShorthandNumber { text } => {
                let mut s = String::from_str("Invalid issue number in shorthand: ");
                s.append(text.as_str());
                s
            },
            ParseError::InvalidOwner { text } => {
                let mut s = String::from_str("Invalid 'owner' query param: ");
                s.append(text.as_str());
                s
            },
            ParseError::InvalidRepo { text } => {
                let mut s = String::from_str("Invalid 'repo' query param: ");
                s.append(text.as_str());
                s
            },
            ParseError::MissingOwner => String::from_str("Missing 'owner' query param"),
            ParseError::MissingRepo => String::from_str("Missing 'repo' query param"),
            ParseError::MissingIssue => String::from_str("Missing 'issue' query param"),
            ParseError::Unrecognized { input } => {
                let mut s = String::from_str("Could not parse issue reference: \"");
                s.append(input.as_str());
                s.append(
                    "\"\nSupported formats:\n- https://github.com/owner/repo/issues/42\n- worktree://open?owner=owner&repo=repo&issue=42\n- worktree://open?owner=owner&repo=repo&linear_id=<uuid>\n- owner/repo#42\n- owner/repo@<linear-uuid>",
                );
                s
            },
        }
    }
}

/// Directory (and branch) name derived from an identity:
/// `issue-{number}` or `linear-{id}`.
pub open spec fn dir_name_spec(i: IssueId) -> Seq<char> {
    match i {
        IssueId::GitHub { number, .. } => "issue-"@ + dec_str(number as int),
        IssueId::Linear { id, .. } => "linear-"@ + id,
    }
}

/// HTTPS clone URL derived from an identity.
pub open spec fn clone_url_spec(i: IssueId) -> Seq<char> {
    match i {
        IssueId::GitHub { owner, repo, .. } => "https://github.com/"@ + owner + "/"@ + repo
            + ".git"@,
        IssueId::Linear { owner, repo, .. } => "https://github.com/"@ + owner + "/"@ + repo
            + ".git"@,
    }
}

/// Path of the shared bare mirror under `root`.
pub open spec fn bare_path_spec(i: IssueId, root: Seq<char>) -> Seq<char> {
    match i {
        IssueId::GitHub { owner, repo, .. } => root + "/worktrees/github/"@ + owner + "/"@ + repo,
        IssueId::Linear { owner, repo, .. } => root + "/worktrees/github/"@ + owner + "/"@ + repo,
    }
}

/// Path of the per-identity worktree under `root`.
pub open spec fn temp_path_spec(i: IssueId, root: Seq<char>) -> Seq<char> {
    bare_path_spec(i, root) + "/"@ + dir_name_spec(i)
}

impl IssueRef {
    /// Directory name used inside the bare clone for this worktree.
    pub fn workspace_dir_name(&self) -> (r: String)
        ensures
            r@ == dir_name_spec(self@),
    {
        match self {
            IssueRef::GitHub { number, .. } => {
                let mut s = String::from_str("issue-");
                let d = u64_to_dec(*number);
                s.append(d.as_str());
                s
            },
            IssueRef::Linear { id, .. } => {
                let mut s = String::from_str("linear-");
                s.append(id.as_str());
                s
            },
        }
    }

    /// Git branch name for this issue worktree.
    pub fn branch_name(&self) -> (r: String)
        ensures
            r@ == dir_name_spec(self@),
    {
        self.workspace_dir_name()
    }

    /// HTTPS clone URL for the repository.
    pub fn clone_url(&self) -> (r: String)
        ensures
            r@ == clone_url_spec(self@),
    {
        match self {
            IssueRef::GitHub { owner, repo, .. } | IssueRef::Linear { owner, repo, .. } => {
                let mut s = String::from_str("https://github.com/");
                s.append(owner.as_str());
                s.append("/");
                s.append(repo.as_str());
                s.append(".git");
                s
            },
        }
    }

    /// Path to the bare clone: `{root}/worktrees/github/{owner}/{repo}`.
    /// The caller supplies the root directory (normally the home
    /// directory, see [`home_dir`]).
    pub fn bare_clone_path(&self, root: &str) -> (r: String)
        ensures
            r@ == bare_path_spec(self@, root@),
    {
        match self {
            IssueRef::GitHub { owner, repo, .. } | IssueRef::Linear { owner, repo, .. } => {
                let mut s = String::from_str(root);
                s.append("/worktrees/github/");
                s.append(owner.as_str());
                s.append("/");
                s.append(repo.as_str());
                s
            },
        }
    }

    /// Path to the worktree checkout:
    /// `{root}/worktrees/github/{owner}/{repo}/{dir-name}`.
    pub fn temp_path(&self, root: &str) -> (r: String)
        ensures
            r@ == temp_path_spec(self@, root@),
    {
        let mut s = self.bare_clone_path(root);
        s.append("/");
        let d = self.workspace_dir_name();
        s.append(d.as_str());
        s
    }
}

/// Returns `true` if `s` matches the standard UUID format
/// `xxxxxxxx-xxxx-xxxx-xxxx-xxxxxxxxxxxx` (all hex, case-insensitive).
pub fn is_uuid(s: &str) -> (r: bool)
    ensures
        r == is_uuid_seq(s@),
{
    let cs = text::to_chars(s);
    proof {
        assert(cs@.subrange(0, cs@.len() as int) =~= s@);
    }
    is_uuid_range(cs.as_slice(), 0, cs.len())
}

/// UUID check on a character range.
#[verifier::loop_isolation(false)]
pub fn is_uuid_range(s: &[char], from: usize, to: usize) -> (r: bool)
    requires
        from <= to <= s@.len(),
    ensures
        r == is_uuid_seq(s@.subrange(from as int, to as int)),
{
    let ghost sub = s@.subrange(from as int, to as int);
    if to - from != 36 {
        return false;
    }
    for j in 0..36usize
        invariant
            forall|k: int| 0 <= k < j ==> text::uuid_pos_ok(sub, k),
    {
        proof {
            assert(sub[j as int] == s@[from + j]);
        }
        let c = s[from + j];
        if j == 8 || j == 13 || j == 18 || j == 23 {
            if c != '-' {
                proof {
                    assert(!text::uuid_pos_ok(sub, j as int));
                }
                return false;
            }
        } else {
            if text::hex_digit(c).is_none() {
                proof {
                    assert(!text::uuid_pos_ok(sub, j as int));
                }
                return false;
            }
        }
    }
    true
}

/// Relies on `dirs::home_dir`: the user's home directory, if the
/// platform reports one. The result depends on the environment, so
/// nothing is promised of its value.
#[verifier::external_body]
pub fn home_dir() -> (r: Option<String>)
{
    dirs::home_dir().map(|p| p.to_string_lossy().into_owned())
}

} // verus!
