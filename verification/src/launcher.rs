//! Launching the backend: what is run, with which arguments, where its output
//! goes, and what becomes of the attempt.
//!
//! Starting a process is the host's business; deciding how is done here. The
//! launcher draws up a [`LaunchPlan`], the host carries it out step by step
//! and reports back what happened: whether the diagnostic sink could be
//! opened ([`LaunchPlan::redirection`]) and whether the operating system
//! started the child ([`conclude`]).

use vstd::prelude::*;
use crate::host::{BuildProfile, Features, HostEnvironment, Platform};
use crate::paths::{join, joined};

verus! {

/// The runtime's argument that makes it execute the artifact that follows.
pub const RUN_ARTIFACT: &'static str = "-jar";

/// The file name of the diagnostic sink in the host's log directory.
pub const SINK_FILE: &'static str = "backend.log";

/// The process creation flag that keeps a child from getting a console window.
pub const CREATE_NO_WINDOW: u32 = 0x0800_0000;

/// What every launch failure message begins with.
pub const LAUNCH_FAILURE_PREFIX: &'static str = "Failed to start backend: ";

/// Where one output stream of the child goes.
#[derive(Clone, Copy, Debug, PartialEq, Eq, Structural)]
pub enum StreamTarget {
    /// Wherever the host's own stream goes.
    Inherit,
    /// The diagnostic sink.
    Sink,
}

/// Where the two output streams of the child go.
#[derive(Clone, Copy, Debug, PartialEq, Eq, Structural)]
pub struct Redirection {
    pub stdout: StreamTarget,
    pub stderr: StreamTarget,
}

/// Everything the host needs to know to start the child.
#[derive(Debug)]
pub struct LaunchPlan {
    /// The executable to invoke.
    pub program: String,
    /// Its arguments, in order.
    pub args: Vec<String>,
    /// The file that is to capture the child's output, if any.
    pub sink: Option<String>,
    /// Whether the child must be started without a console window.
    pub hide_console: bool,
}

/// Why a launch did not produce a process.
#[derive(Debug)]
pub struct LaunchError {
    /// The operating system's account of the failure.
    pub reason: String,
}

/// The arguments that make the runtime execute an artifact.
pub open spec fn arguments_for(artifact: Seq<char>) -> Seq<Seq<char>> {
    seq![RUN_ARTIFACT@, artifact]
}

/// Whether the launcher suppresses the child's console window: where the
/// platform has such windows, and only in a packaged build. A development
/// build keeps the console visible.
pub open spec fn suppresses_console(platform: Platform, profile: BuildProfile) -> bool {
    platform.has_console_windows() && profile == BuildProfile::Release
}

/// The place of the diagnostic sink: a fixed file in the host's log
/// directory, when output capture is switched on and there is such a
/// directory.
pub open spec fn sink_candidate(log_dir: Option<Seq<char>>, features: Features) -> Option<
    Seq<char>,
> {
    match log_dir {
        Some(dir) => if features.redirect_output {
            Some(joined(dir, SINK_FILE@))
        } else {
            None
        },
        None => None,
    }
}

/// The path of the diagnostic sink for this host, if it is to have one.
pub fn sink_path(env: &HostEnvironment, features: &Features) -> (path: Option<String>)
    ensures
        path.deep_view() == sink_candidate(env.log_dir.deep_view(), *features),
{
    if !features.redirect_output {
        return None;
    }
    match &env.log_dir {
        Some(dir) => Some(join(dir.as_str(), SINK_FILE)),
        None => None,
    }
}

/// Draws up the launch of `artifact` by `runtime`.
pub fn plan(
    runtime: &str,
    artifact: &str,
    diagnostics: Option<String>,
    platform: Platform,
    profile: BuildProfile,
) -> (plan: LaunchPlan)
    ensures
        plan.program@ == runtime@,
        plan.args.deep_view() == arguments_for(artifact@),
        plan.sink == diagnostics,
        plan.hide_console == suppresses_console(platform, profile),
{
    let mut args: Vec<String> = Vec::new();
    args.push(RUN_ARTIFACT.to_owned());
    args.push(artifact.to_owned());
    assert(args.deep_view() =~= arguments_for(artifact@));
    let hide_console = match profile {
        BuildProfile::Release => platform.supports_window_suppression(),
        BuildProfile::Debug => false,
    };
    LaunchPlan { program: runtime.to_owned(), args, sink: diagnostics, hide_console }
}

impl LaunchPlan {
    /// The flags to create the child process with, as a bit set.
    pub open spec fn flags(self) -> u32 {
        if self.hide_console {
            CREATE_NO_WINDOW
        } else {
            0
        }
    }

    /// Where the child's output goes, given whether the sink could be opened:
    /// both streams go to the sink, or neither.
    pub open spec fn streams(self, sink_opened: bool) -> Redirection {
        if self.sink is Some && sink_opened {
            Redirection { stdout: StreamTarget::Sink, stderr: StreamTarget::Sink }
        } else {
            Redirection { stdout: StreamTarget::Inherit, stderr: StreamTarget::Inherit }
        }
    }

    /// Executable form of [`LaunchPlan::flags`]. Zero where the platform has
    /// no such flag to set.
    pub fn creation_flags(&self) -> (flags: u32)
        ensures
            flags == self.flags(),
    {
        if self.hide_console {
            CREATE_NO_WINDOW
        } else {
            0
        }
    }

    /// Decides where the child's output goes once the host has tried to open
    /// the sink. A sink that cannot be opened does not fail the launch: the
    /// child is started without redirection.
    pub fn redirection(&self, sink_opened: bool) -> (streams: Redirection)
        ensures
            streams == self.streams(sink_opened),
            streams.stdout == streams.stderr,
    {
        match &self.sink {
            Some(_) => {
                if sink_opened {
                    Redirection { stdout: StreamTarget::Sink, stderr: StreamTarget::Sink }
                } else {
                    Redirection { stdout: StreamTarget::Inherit, stderr: StreamTarget::Inherit }
                }
            },
            None => Redirection { stdout: StreamTarget::Inherit, stderr: StreamTarget::Inherit },
        }
    }

    /// Whether a sink was planned and could not be opened, which is worth a
    /// warning.
    pub fn sink_unavailable(&self, sink_opened: bool) -> (lost: bool)
        ensures
            lost == (self.sink is Some && !sink_opened),
    {
        match &self.sink {
            Some(_) => !sink_opened,
            None => false,
        }
    }
}

impl LaunchError {
    /// The text of the failure message.
    pub open spec fn message_text(self) -> Seq<char> {
        LAUNCH_FAILURE_PREFIX@ + self.reason@
    }

    /// The failure message for the log: a fixed prefix, then the operating
    /// system's reason.
    pub fn message(&self) -> (message: String)
        ensures
            message@ == self.message_text(),
    {
        let mut message = LAUNCH_FAILURE_PREFIX.to_owned();
        message.append(self.reason.as_str());
        message
    }
}

/// Turns the operating system's answer to the spawn request into the
/// launcher's result: the process itself, or a launch error that wraps the
/// reason the host was given.
pub fn conclude<P>(attempt: Result<P, String>) -> (outcome: Result<P, LaunchError>)
    ensures
        match attempt {
            Ok(process) => outcome == Ok::<P, LaunchError>(process),
            Err(reason) => outcome == Err::<P, LaunchError>(LaunchError { reason }),
        },
{
    match attempt {
        Ok(process) => Ok(process),
        Err(reason) => Err(LaunchError { reason }),
    }
}

/// Redirection is all or nothing: the two streams never part ways, and they
/// reach the sink exactly when one was planned and could be opened.
pub proof fn lemma_streams_share_the_sink(plan: LaunchPlan, sink_opened: bool)
    ensures
        plan.streams(sink_opened).stdout == plan.streams(sink_opened).stderr,
        plan.streams(sink_opened).stdout == StreamTarget::Sink <==> plan.sink is Some
            && sink_opened,
{
}

} // verus!
