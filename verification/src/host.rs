//! What the supervisor is told about the host application it lives in.
//!
//! The host resolves these facts from its own framework and build
//! configuration and hands them over as plain values; every decision of the
//! supervisor is a function of them and of what it finds on disk.

use vstd::prelude::*;
use crate::paths::is_on_disk;

verus! {

/// How the host application was built.
#[derive(Clone, Copy, Debug, PartialEq, Eq, Structural)]
pub enum BuildProfile {
    /// A development build, run from the project tree on a developer's machine.
    Debug,
    /// A packaged build, as shipped to users.
    Release,
}

/// The family of operating system the host runs on.
#[derive(Clone, Copy, Debug, PartialEq, Eq, Structural)]
pub enum Platform {
    Windows,
    Other,
}

impl Platform {
    /// Whether a child process started on this platform gets a console window
    /// of its own unless the launcher asks for none.
    pub open spec fn has_console_windows(self) -> bool {
        self == Platform::Windows
    }

    /// Executable form of [`Platform::has_console_windows`].
    pub fn supports_window_suppression(self) -> (yes: bool)
        ensures
            yes == self.has_console_windows(),
    {
        match self {
            Platform::Windows => true,
            Platform::Other => false,
        }
    }
}

/// The host's surroundings at startup.
#[derive(Debug)]
pub struct HostEnvironment {
    /// How the host was built.
    pub profile: BuildProfile,
    /// The operating system family.
    pub platform: Platform,
    /// The directory the supervisor itself was built in. The project root of a
    /// development tree lies two levels above it.
    pub build_dir: String,
    /// The directory of resources bundled with a packaged host, when the host
    /// can name one.
    pub resource_dir: Option<String>,
    /// The directory the host keeps its log files in, when it can name one.
    pub log_dir: Option<String>,
}

/// A place on disk that was looked at, and whether something was found there.
#[derive(Debug)]
pub struct Probe {
    /// The path that was looked at.
    pub path: String,
    /// Whether the path pointed at something on disk when it was looked at.
    pub present: bool,
}

/// Looks at a path and records whether anything is there. What is found
/// depends on the disk alone, so nothing is promised about it.
pub fn probe(path: String) -> (seen: Probe)
    ensures
        seen.path == path,
{
    let present = is_on_disk(path.as_str());
    Probe { path, present }
}

/// The optional parts of the supervisor. Each can be switched off on its own;
/// [`Features::all`] is the full design.
#[derive(Clone, Copy, Debug, PartialEq, Eq, Structural)]
pub struct Features {
    /// Prefer a runtime bundled with a packaged host over the system's.
    pub bundled_runtime: bool,
    /// Capture the child's output in a diagnostic sink.
    pub redirect_output: bool,
    /// Terminate the child when the host's primary window is destroyed.
    pub terminate_on_window_destroyed: bool,
    /// Terminate the child when the host's run loop exits.
    pub terminate_on_app_exit: bool,
}

impl Features {
    /// Every optional part switched on.
    pub open spec fn complete(self) -> bool {
        &&& self.bundled_runtime
        &&& self.redirect_output
        &&& self.terminate_on_window_destroyed
        &&& self.terminate_on_app_exit
    }

    /// The full design: bundled runtime with fallback, output capture, and
    /// termination on both shutdown events.
    pub fn all() -> (features: Features)
        ensures
            features.complete(),
    {
        Features {
            bundled_runtime: true,
            redirect_output: true,
            terminate_on_window_destroyed: true,
            terminate_on_app_exit: true,
        }
    }
}

} // verus!
