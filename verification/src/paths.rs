//! Filesystem paths as text, and the three questions the supervisor puts to
//! `std::path`: where a path's parent is, what a path extended by a relative
//! one reads like, and whether anything exists at a path.
//!
//! Verification treats paths as sequences of characters. The platform's own
//! rules (separators, roots, drive prefixes) stay inside the standard library;
//! the results of the two computations are named by the uninterpreted
//! functions [`parent_of`] and [`joined`], and nothing here claims more about
//! them than that equal inputs give equal results on the platform the crate is
//! compiled for.

use vstd::prelude::*;

verus! {

/// What `std::path::Path::parent` yields for a path: the path without its
/// final component, or `None` when there is no such component to remove.
pub uninterp spec fn parent_of(path: Seq<char>) -> Option<Seq<char>>;

/// What `std::path::Path::join` yields for a base path and a path to adjoin.
pub uninterp spec fn joined(base: Seq<char>, rel: Seq<char>) -> Seq<char>;

/// Calls `std::path::Path::parent`.
///
/// Trusted: the result is the standard library's, which this contract only
/// names as [`parent_of`] of the argument. The text handed back is the
/// parent's own text: a path cut out of valid UTF-8 at a component boundary
/// is valid UTF-8, so the lossy conversion loses nothing.
#[verifier::external_body]
pub(crate) fn parent(path: &str) -> (up: Option<String>)
    ensures
        up.deep_view() == parent_of(path@),
{
    std::path::Path::new(path).parent().map(|p| p.to_string_lossy().into_owned())
}

/// Calls `std::path::Path::join`.
///
/// Trusted: the result is the standard library's, which this contract only
/// names as [`joined`] of the two arguments.
#[verifier::external_body]
pub(crate) fn join(base: &str, rel: &str) -> (whole: String)
    ensures
        whole@ == joined(base@, rel@),
{
    std::path::Path::new(base).join(rel).to_string_lossy().into_owned()
}

/// Calls `std::path::Path::exists`.
///
/// Trusted, and without a postcondition: the answer depends on what is on
/// disk at the moment of the call, so two calls on one path may differ and
/// callers are verified for either answer.
#[verifier::external_body]
pub(crate) fn is_on_disk(path: &str) -> (found: bool)
{
    std::path::Path::new(path).exists()
}

} // verus!
