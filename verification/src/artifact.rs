//! Finding the backend artifact: the payload that the runtime executes.
//!
//! Two places are tried, in a fixed order. A development tree keeps the
//! artifact in the build output of the backend module, below the project
//! root; a packaged host carries it among its bundled resources. The
//! development place comes first, so that a developer never runs a stale
//! packaged artifact by accident. Finding none is an ordinary outcome: the
//! host then runs without a backend.

use vstd::prelude::*;
use crate::host::{probe, HostEnvironment, Probe};
use crate::paths::{join, joined, parent, parent_of};

verus! {

/// Where a development tree keeps the artifact, relative to the project root.
pub const DEVELOPMENT_ARTIFACT: &'static str = "backend/build/libs/backend-0.1.0.jar";

/// The artifact's file name among the resources of a packaged host.
pub const PACKAGED_ARTIFACT: &'static str = "backend.jar";

/// The project root as seen from the supervisor's build directory: two levels
/// up, when there are two levels to go up.
pub open spec fn project_root_of(build_dir: Seq<char>) -> Option<Seq<char>> {
    match parent_of(build_dir) {
        Some(up) => parent_of(up),
        None => None,
    }
}

/// The development-layout place of the artifact.
pub open spec fn development_candidate(build_dir: Seq<char>) -> Option<Seq<char>> {
    match project_root_of(build_dir) {
        Some(root) => Some(joined(root, DEVELOPMENT_ARTIFACT@)),
        None => None,
    }
}

/// The packaged-layout place of the artifact.
pub open spec fn packaged_candidate(resource_dir: Option<Seq<char>>) -> Option<Seq<char>> {
    match resource_dir {
        Some(dir) => Some(joined(dir, PACKAGED_ARTIFACT@)),
        None => None,
    }
}

/// The precedence rule: a development artifact that is present wins; failing
/// that, a packaged artifact that is present; failing that, nothing.
pub open spec fn selection(development: Option<Probe>, packaged: Option<Probe>) -> Option<
    Seq<char>,
> {
    if development is Some && development->0.present {
        Some(development->0.path@)
    } else if packaged is Some && packaged->0.present {
        Some(packaged->0.path@)
    } else {
        None
    }
}

/// What locating the artifact can come to on a host, whatever is on disk:
/// nothing, or one of the two candidates.
pub open spec fn may_locate(env: HostEnvironment, found: Option<Seq<char>>) -> bool {
    ||| found is None
    ||| found == development_candidate(env.build_dir@)
    ||| found == packaged_candidate(env.resource_dir.deep_view())
}

/// Walks up from the supervisor's build directory to the presumed project
/// root.
pub fn project_root(build_dir: &str) -> (root: Option<String>)
    ensures
        root.deep_view() == project_root_of(build_dir@),
{
    match parent(build_dir) {
        Some(up) => parent(up.as_str()),
        None => None,
    }
}

/// The path at which a development tree would hold the artifact, given the
/// supervisor's build directory. `None` when the build directory does not lie
/// two levels below anything.
pub fn development_artifact(build_dir: &str) -> (path: Option<String>)
    ensures
        path.deep_view() == development_candidate(build_dir@),
{
    match project_root(build_dir) {
        Some(root) => Some(join(root.as_str(), DEVELOPMENT_ARTIFACT)),
        None => None,
    }
}

/// The path at which a packaged host would hold the artifact, given its
/// resource directory.
pub fn packaged_artifact(resource_dir: &str) -> (path: String)
    ensures
        path@ == joined(resource_dir@, PACKAGED_ARTIFACT@),
{
    join(resource_dir, PACKAGED_ARTIFACT)
}

/// Applies the precedence rule to the two places that were looked at.
///
/// `None` for a place means that the place could not even be named (no project
/// root, no resource directory).
pub fn select(development: Option<Probe>, packaged: Option<Probe>) -> (chosen: Option<String>)
    ensures
        chosen.deep_view() == selection(development, packaged),
{
    if let Some(seen) = development {
        if seen.present {
            return Some(seen.path);
        }
    }
    if let Some(seen) = packaged {
        if seen.present {
            return Some(seen.path);
        }
    }
    None
}

/// Locates the artifact for this host: the development place is looked at
/// first and, only if nothing is there, the packaged place.
///
/// What is on disk decides the outcome, so the contract states what holds of
/// every outcome: a path that is returned is one of the two candidates, and
/// without any candidate nothing is returned. [`select`] states the rule
/// itself.
pub fn locate(env: &HostEnvironment) -> (found: Option<String>)
    ensures
        may_locate(*env, found.deep_view()),
{
    let development = match development_artifact(env.build_dir.as_str()) {
        Some(path) => Some(probe(path)),
        None => None,
    };
    let decided = match &development {
        Some(seen) => seen.present,
        None => false,
    };
    let packaged = if decided {
        None
    } else {
        match &env.resource_dir {
            Some(dir) => Some(probe(packaged_artifact(dir.as_str()))),
            None => None,
        }
    };
    select(development, packaged)
}

/// Precedence: when the development artifact is present, it is chosen,
/// whether or not a packaged artifact is present too.
pub proof fn lemma_development_takes_precedence(development: Probe, packaged: Option<Probe>)
    requires
        development.present,
    ensures
        selection(Some(development), packaged) == Some(development.path@),
{
}

/// Graceful absence: when neither place holds the artifact, nothing is
/// chosen.
pub proof fn lemma_nothing_present_nothing_chosen(
    development: Option<Probe>,
    packaged: Option<Probe>,
)
    requires
        development matches Some(seen) ==> !seen.present,
        packaged matches Some(seen) ==> !seen.present,
    ensures
        selection(development, packaged) is None,
{
}

/// Whatever is chosen was looked at and found present.
pub proof fn lemma_chosen_was_present(development: Option<Probe>, packaged: Option<Probe>)
    requires
        selection(development, packaged) is Some,
    ensures
        (development matches Some(seen) && seen.present && selection(development, packaged)
            == Some(seen.path@)) || (packaged matches Some(seen) && seen.present
            && selection(development, packaged) == Some(seen.path@)),
{
}

} // verus!
