//! URL-scheme handler registration: the status record and the quoting
//! helper the installers use. The platform installers themselves are
//! registry, plist and desktop-file I/O and live outside the verified
//! library.

use vstd::prelude::*;
use vstd::string::StrSliceExecFns;
use vstd::string::StringExecFns;

use crate::text;
use crate::text::replace_spec;

verus! {

/// What `worktree scheme` can be asked to do.
#[derive(Debug, Clone)]
pub enum SchemeAction {
    /// Unregister the URL scheme handler.
    Uninstall,
    /// Check whether the URL scheme handler is registered.
    Status,
}

/// Whether the URL scheme handler is registered, and where.
#[derive(Debug, Clone, PartialEq)]
pub enum SchemeStatus {
    Installed { path: String },
    NotInstalled,
}

/// The mathematical value of a [`SchemeStatus`].
pub enum SchemeStatusV {
    Installed { path: Seq<char> },
    NotInstalled,
}

impl View for SchemeStatus {
    type V = SchemeStatusV;

    open spec fn view(&self) -> SchemeStatusV {
        match self {
            SchemeStatus::Installed { path } => SchemeStatusV::Installed { path: path@ },
            SchemeStatus::NotInstalled => SchemeStatusV::NotInstalled,
        }
    }
}

/// The message a status is reported with.
pub open spec fn scheme_status_message(s: SchemeStatusV) -> Seq<char> {
    match s {
        SchemeStatusV::Installed { path } => "Installed at "@ + path,
        SchemeStatusV::NotInstalled => "Not installed"@,
    }
}

impl SchemeStatus {
    /// The status rendered as a single human-readable message.
    pub fn message(&self) -> (r: String)
        ensures
            r@ == scheme_status_message(self@),
    {
        match self {
            SchemeStatus::Installed { path } => {
                let mut s = String::from_str("Installed at ");
                s.append(path.as_str());
                s
            },
            SchemeStatus::NotInstalled => String::from_str("Not installed"),
        }
    }
}

/// A string quoted for an AppleScript source: backslashes and double
/// quotes escaped, the whole wrapped in double quotes.
pub open spec fn applescript_quoted_spec(s: Seq<char>) -> Seq<char> {
    "\""@ + replace_spec(replace_spec(s, "\\"@, "\\\\"@), "\""@, "\\\""@) + "\""@
}

/// Quote a string for embedding in an AppleScript source.
pub fn applescript_quoted(s: &str) -> (r: String)
    ensures
        r@ == applescript_quoted_spec(s@),
{
    proof {
        reveal_strlit("\\");
        reveal_strlit("\"");
    }
    let escaped = text::replace(s, "\\", "\\\\");
    let escaped = text::replace(escaped.as_str(), "\"", "\\\"");
    let mut r = String::from_str("\"");
    r.append(escaped.as_str());
    r.append("\"");
    r
}

} // verus!
