//! The ways in which startup can fail.

use vstd::prelude::*;

verus! {

/// A reason for giving up on startup. None of them can be recovered from:
/// the host reports the diagnostic and terminates.
#[derive(Clone, Copy, Debug, PartialEq, Eq, Structural)]
pub enum StartupError {
    /// The operating system had no unused TCP port to offer.
    NoFreePort,
    /// The directory that holds the bundled resources could not be resolved.
    ResourceRootUnresolved,
    /// The bundled sidecar executable could not be located.
    SidecarNotFound,
    /// The operating system refused to create the sidecar process.
    SpawnFailed,
}

/// The kinds of failure. None has a meaningful retry: the condition behind
/// each is structural, not transient.
#[derive(Clone, Copy, Debug, PartialEq, Eq, Structural)]
pub enum FailureKind {
    /// The environment has run out of something that startup needs.
    EnvironmentExhaustion,
    /// The application was packaged without something that startup needs.
    PackagingDefect,
    /// The operating system refused to create the sidecar process.
    SpawnFailure,
}

impl StartupError {
    /// The kind that each failure belongs to.
    pub open spec fn failure_kind(self) -> FailureKind {
        match self {
            StartupError::NoFreePort => FailureKind::EnvironmentExhaustion,
            StartupError::ResourceRootUnresolved => FailureKind::PackagingDefect,
            StartupError::SidecarNotFound => FailureKind::PackagingDefect,
            StartupError::SpawnFailed => FailureKind::SpawnFailure,
        }
    }

    /// The kind of this failure.
    pub fn kind(&self) -> (kind: FailureKind)
        ensures
            kind == self.failure_kind(),
    {
        match self {
            StartupError::NoFreePort => FailureKind::EnvironmentExhaustion,
            StartupError::ResourceRootUnresolved => FailureKind::PackagingDefect,
            StartupError::SidecarNotFound => FailureKind::PackagingDefect,
            StartupError::SpawnFailed => FailureKind::SpawnFailure,
        }
    }

    /// The diagnostic that belongs to each failure.
    pub open spec fn diagnostic(self) -> Seq<char> {
        match self {
            StartupError::NoFreePort => "No free port available"@,
            StartupError::ResourceRootUnresolved => "Failed to resolve resource directory"@,
            StartupError::SidecarNotFound => "Failed to locate sidecar binary"@,
            StartupError::SpawnFailed => "Failed to spawn sidecar"@,
        }
    }

    /// The diagnostic to show when startup is abandoned for this reason.
    pub fn message(&self) -> (text: String)
        ensures
            text@ == self.diagnostic(),
    {
        match self {
            StartupError::NoFreePort => "No free port available".to_owned(),
            StartupError::ResourceRootUnresolved => "Failed to resolve resource directory".to_owned(),
            StartupError::SidecarNotFound => "Failed to locate sidecar binary".to_owned(),
            StartupError::SpawnFailed => "Failed to spawn sidecar".to_owned(),
        }
    }
}

} // verus!
