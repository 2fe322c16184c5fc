//! What can go wrong around the sidecar, and how loudly it is reported.
//!
//! Nothing that goes wrong here is allowed to stop the host: every incident
//! degrades to "no backend" or "no log record", and is reported at the level
//! given by [`Incident::level`].

use vstd::prelude::*;

verus! {

/// The severity of a log line.
#[derive(Clone, Copy, Debug, PartialEq, Eq, Structural)]
pub enum Level {
    Info,
    Warn,
    Error,
}

/// The ways in which supervising the sidecar can fall short.
#[derive(Clone, Copy, Debug, PartialEq, Eq, Structural)]
pub enum Incident {
    /// Neither the development nor the packaged artifact is on disk.
    ArtifactNotFound,
    /// A packaged build found no bundled runtime and uses the system's.
    BundledRuntimeMissing,
    /// The operating system refused to start the child process.
    SpawnFailed,
    /// The diagnostic sink could not be opened; output is not captured.
    DiagnosticSinkUnavailable,
    /// The termination signal could not be delivered.
    TerminationFailed,
}

impl Incident {
    /// The level an incident is reported at: a failed launch is an error,
    /// everything else a warning.
    pub open spec fn severity(self) -> Level {
        match self {
            Incident::SpawnFailed => Level::Error,
            _ => Level::Warn,
        }
    }

    /// Executable form of [`Incident::severity`].
    pub fn level(self) -> (level: Level)
        ensures
            level == self.severity(),
    {
        match self {
            Incident::SpawnFailed => Level::Error,
            Incident::ArtifactNotFound => Level::Warn,
            Incident::BundledRuntimeMissing => Level::Warn,
            Incident::DiagnosticSinkUnavailable => Level::Warn,
            Incident::TerminationFailed => Level::Warn,
        }
    }
}

} // verus!
