//! Resolve issue references into canonical identities and materialize
//! per-issue git worktree workspaces.
//!
//! The crate has two verified cores: the reference-resolution grammar
//! (GitHub issue URLs, `worktree://` deep links, and the two shorthand
//! forms) and the workspace-materialization state machine, which decides
//! every git step while an unverified driver performs the subprocess calls.

pub mod config;
pub mod daemon;
pub mod git;
pub mod hooks;
pub mod issue;
pub mod opener;
pub mod scheme;
pub mod text;
pub mod workspace;

pub use issue::{DeepLinkOptions, IssueRef};
pub use workspace::Workspace;
