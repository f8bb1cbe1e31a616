//! Handler-application installation status. Installing and removing
//! the handler application is filesystem and subprocess I/O and lives
//! outside the verified library.

use vstd::prelude::*;
use vstd::string::StringExecFns;

verus! {

/// Whether the handler application is installed, and where.
#[derive(Debug, Clone, PartialEq)]
pub enum DaemonStatus {
    Installed { path: String },
    NotInstalled,
}

/// The mathematical value of a [`DaemonStatus`].
pub enum DaemonStatusV {
    Installed { path: Seq<char> },
    NotInstalled,
}

impl View for DaemonStatus {
    type V = DaemonStatusV;

    open spec fn view(&self) -> DaemonStatusV {
        match self {
            DaemonStatus::Installed { path } => DaemonStatusV::Installed { path: path@ },
            DaemonStatus::NotInstalled => DaemonStatusV::NotInstalled,
        }
    }
}

/// The message a status is reported with.
pub open spec fn daemon_status_message(s: DaemonStatusV) -> Seq<char> {
    match s {
        DaemonStatusV::Installed { path } => "Installed at "@ + path,
        DaemonStatusV::NotInstalled => "Not installed"@,
    }
}

impl DaemonStatus {
    /// The status rendered as a single human-readable message.
    pub fn message(&self) -> (r: String)
        ensures
            r@ == daemon_status_message(self@),
    {
        match self {
            DaemonStatus::Installed { path } => {
                let mut s = String::from_str("Installed at ");
                s.append(path.as_str());
                s
            },
            DaemonStatus::NotInstalled => String::from_str("Not installed"),
        }
    }
}

} // verus!
