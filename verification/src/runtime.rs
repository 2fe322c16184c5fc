//! Finding the runtime: the executable that runs the backend artifact.
//!
//! A development build always uses the system's runtime, by its bare command
//! name, whether or not a bundled copy exists. A packaged build prefers the
//! runtime bundled among its resources and falls back to the system's when
//! there is none. A runtime is always named: if the name turns out to be
//! wrong, the launch fails later, and visibly.

use vstd::prelude::*;
use crate::host::{probe, BuildProfile, Features, HostEnvironment, Platform, Probe};
use crate::paths::{join, joined};

verus! {

/// The command name of the system-wide runtime, resolved through the search
/// path of the operating system.
pub const SYSTEM_RUNTIME: &'static str = "java";

/// The directory of the bundled runtime, below the resource directory.
pub const BUNDLED_RUNTIME_HOME: &'static str = "jre";

/// The directory of executables, below the bundled runtime's directory.
pub const BUNDLED_RUNTIME_BIN: &'static str = "bin";

/// The file name of the runtime executable where executables carry a suffix.
pub const RUNTIME_EXECUTABLE_WINDOWS: &'static str = "java.exe";

/// The file name of the runtime executable elsewhere.
pub const RUNTIME_EXECUTABLE: &'static str = "java";

/// Which runtime was chosen, and why.
#[derive(Debug)]
pub enum RuntimeChoice {
    /// The runtime bundled with the host, found at this path.
    Bundled(String),
    /// The system's runtime, because no bundled one was looked for.
    System,
    /// The system's runtime, because the bundled one was looked for at this
    /// path and is missing.
    Fallback(String),
}

impl RuntimeChoice {
    /// The text that names the chosen executable to the operating system.
    pub open spec fn command_text(self) -> Seq<char> {
        match self {
            RuntimeChoice::Bundled(path) => path@,
            RuntimeChoice::System => SYSTEM_RUNTIME@,
            RuntimeChoice::Fallback(_) => SYSTEM_RUNTIME@,
        }
    }

    /// The path or command name to invoke.
    pub fn command(&self) -> (command: String)
        ensures
            command@ == self.command_text(),
    {
        match self {
            RuntimeChoice::Bundled(path) => path.clone(),
            RuntimeChoice::System => SYSTEM_RUNTIME.to_owned(),
            RuntimeChoice::Fallback(_) => SYSTEM_RUNTIME.to_owned(),
        }
    }

    /// Whether the bundled runtime was wanted and found missing, which is
    /// worth a warning.
    pub fn fell_back(&self) -> (yes: bool)
        ensures
            yes == (*self is Fallback),
    {
        match self {
            RuntimeChoice::Fallback(_) => true,
            _ => false,
        }
    }
}

/// The file name of the runtime executable on a platform.
pub open spec fn executable_name(platform: Platform) -> Seq<char> {
    match platform {
        Platform::Windows => RUNTIME_EXECUTABLE_WINDOWS@,
        Platform::Other => RUNTIME_EXECUTABLE@,
    }
}

/// The place of the bundled runtime executable below a resource directory.
pub open spec fn bundled_candidate(resource_dir: Seq<char>, platform: Platform) -> Seq<char> {
    joined(
        joined(joined(resource_dir, BUNDLED_RUNTIME_HOME@), BUNDLED_RUNTIME_BIN@),
        executable_name(platform),
    )
}

/// Whether this host looks for a bundled runtime at all: only a packaged
/// build does, and only when the feature is switched on.
pub open spec fn wants_bundled(profile: BuildProfile, features: Features) -> bool {
    profile == BuildProfile::Release && features.bundled_runtime
}

/// The policy: what is chosen, given the build, the features, and what was
/// seen at the bundled runtime's place (`None` when the place was not looked
/// at).
pub open spec fn choice(profile: BuildProfile, features: Features, bundled: Option<Probe>)
    -> RuntimeChoice {
    if wants_bundled(profile, features) && bundled is Some {
        if bundled->0.present {
            RuntimeChoice::Bundled(bundled->0.path)
        } else {
            RuntimeChoice::Fallback(bundled->0.path)
        }
    } else {
        RuntimeChoice::System
    }
}

/// What locating the runtime can come to on a host, whatever is on disk: the
/// system's runtime where no bundled one is looked for, and otherwise the
/// bundled candidate, found or missing.
pub open spec fn may_locate(env: HostEnvironment, features: Features, chosen: RuntimeChoice)
    -> bool {
    if wants_bundled(env.profile, features) && env.resource_dir is Some {
        match chosen {
            RuntimeChoice::Bundled(path) => path@ == bundled_candidate(
                env.resource_dir->0@,
                env.platform,
            ),
            RuntimeChoice::Fallback(path) => path@ == bundled_candidate(
                env.resource_dir->0@,
                env.platform,
            ),
            RuntimeChoice::System => false,
        }
    } else {
        chosen is System
    }
}

/// The path at which a packaged host would hold its bundled runtime.
pub fn bundled_runtime(resource_dir: &str, platform: Platform) -> (path: String)
    ensures
        path@ == bundled_candidate(resource_dir@, platform),
{
    let home = join(resource_dir, BUNDLED_RUNTIME_HOME);
    let bin = join(home.as_str(), BUNDLED_RUNTIME_BIN);
    match platform {
        Platform::Windows => join(bin.as_str(), RUNTIME_EXECUTABLE_WINDOWS),
        Platform::Other => join(bin.as_str(), RUNTIME_EXECUTABLE),
    }
}

/// Executable form of [`wants_bundled`].
pub fn looks_for_bundled(profile: BuildProfile, features: &Features) -> (yes: bool)
    ensures
        yes == wants_bundled(profile, *features),
{
    match profile {
        BuildProfile::Release => features.bundled_runtime,
        BuildProfile::Debug => false,
    }
}

/// Applies the policy to what was seen at the bundled runtime's place.
pub fn decide(profile: BuildProfile, features: &Features, bundled: Option<Probe>) -> (chosen:
    RuntimeChoice)
    ensures
        chosen == choice(profile, *features, bundled),
{
    if !looks_for_bundled(profile, features) {
        return RuntimeChoice::System;
    }
    match bundled {
        Some(seen) => {
            if seen.present {
                RuntimeChoice::Bundled(seen.path)
            } else {
                RuntimeChoice::Fallback(seen.path)
            }
        },
        None => RuntimeChoice::System,
    }
}

/// Locates the runtime for this host. The disk is looked at only where the
/// policy asks for it: in a packaged build with the feature switched on and a
/// resource directory to look in.
///
/// Where the disk is looked at it decides between the bundled runtime and the
/// fallback, so the contract fixes everything but that: which place was looked
/// at, and that the system's runtime is named in every other case. [`decide`]
/// states the policy itself.
pub fn locate(env: &HostEnvironment, features: &Features) -> (chosen: RuntimeChoice)
    ensures
        may_locate(*env, *features, chosen),
{
    if !looks_for_bundled(env.profile, features) {
        return decide(env.profile, features, None);
    }
    let bundled = match &env.resource_dir {
        Some(dir) => Some(probe(bundled_runtime(dir.as_str(), env.platform))),
        None => None,
    };
    decide(env.profile, features, bundled)
}

/// Runtime fallback: a packaged build that finds no bundled runtime names the
/// system's runtime, and so does every build that does not look for one. No
/// outcome is without a command.
pub proof fn lemma_fallback_names_system_runtime(
    profile: BuildProfile,
    features: Features,
    bundled: Option<Probe>,
)
    requires
        bundled matches Some(seen) ==> !seen.present,
    ensures
        choice(profile, features, bundled).command_text() == SYSTEM_RUNTIME@,
        !(choice(profile, features, bundled) is Bundled),
{
}

/// A development build names the system's runtime even when a bundled one is
/// present.
pub proof fn lemma_development_uses_system_runtime(features: Features, bundled: Option<Probe>)
    ensures
        choice(BuildProfile::Debug, features, bundled) is System,
        choice(BuildProfile::Debug, features, bundled).command_text() == SYSTEM_RUNTIME@,
{
}

/// A packaged build that looks for the bundled runtime and finds it uses it.
pub proof fn lemma_packaged_prefers_bundled(features: Features, bundled: Probe)
    requires
        features.bundled_runtime,
        bundled.present,
    ensures
        choice(BuildProfile::Release, features, Some(bundled)).command_text() == bundled.path@,
{
}

} // verus!
