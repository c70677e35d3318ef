//! The observable lifecycle state of the managed game server.

use vstd::prelude::*;

verus! {

/// Status of the supervised server as callers observe it.
///
/// `Version` is a side-channel event carrying the resolved short commit
/// hash.  It never becomes the primary status: the supervisor folds it into
/// its last-known-version field when draining events.
#[derive(Debug, PartialEq, Eq)]
pub enum ServerStatus {
    Offline,
    Updating,
    Version(String),
    Compiling,
    Online,
    UpdateFailed,
    CompileFailed,
    RunFailed,
}

impl Clone for ServerStatus {
    fn clone(&self) -> (r: Self)
        ensures
            r == self,
    {
        match self {
            ServerStatus::Offline => ServerStatus::Offline,
            ServerStatus::Updating => ServerStatus::Updating,
            ServerStatus::Version(v) => ServerStatus::Version(v.clone()),
            ServerStatus::Compiling => ServerStatus::Compiling,
            ServerStatus::Online => ServerStatus::Online,
            ServerStatus::UpdateFailed => ServerStatus::UpdateFailed,
            ServerStatus::CompileFailed => ServerStatus::CompileFailed,
            ServerStatus::RunFailed => ServerStatus::RunFailed,
        }
    }
}

impl ServerStatus {
    /// Terminal failure statuses: once one of these is recorded, no further
    /// stage of the current run executes.
    pub open spec fn is_failure(self) -> bool {
        self is UpdateFailed || self is CompileFailed || self is RunFailed
    }

    /// The text shown for each primary status.  The `Version` side-channel
    /// event is never displayed, so it has no label.
    pub open spec fn label_view(self) -> Seq<char>
        recommends
            !(self is Version),
    {
        match self {
            ServerStatus::Offline => "Offline"@,
            ServerStatus::Updating => "Updating..."@,
            ServerStatus::Version(_) => ""@,
            ServerStatus::Compiling => "Compiling..."@,
            ServerStatus::Online => "Online"@,
            ServerStatus::UpdateFailed => "Failed to update"@,
            ServerStatus::CompileFailed => "Compile Failed"@,
            ServerStatus::RunFailed => "Starting Failed"@,
        }
    }

    /// Human-readable label of a primary status.
    pub fn label(&self) -> (r: String)
        requires
            !(self is Version),
        ensures
            r@ == self.label_view(),
    {
        match self {
            ServerStatus::Offline => "Offline".to_owned(),
            ServerStatus::Updating => "Updating...".to_owned(),
            ServerStatus::Version(_) => "".to_owned(),
            ServerStatus::Compiling => "Compiling...".to_owned(),
            ServerStatus::Online => "Online".to_owned(),
            ServerStatus::UpdateFailed => "Failed to update".to_owned(),
            ServerStatus::CompileFailed => "Compile Failed".to_owned(),
            ServerStatus::RunFailed => "Starting Failed".to_owned(),
        }
    }
}

} // verus!
