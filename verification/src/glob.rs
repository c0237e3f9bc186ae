//! Glob matching, delegated to globset behind one trusted wrapper.
//!
//! A rule path that carries `*` or `?` is compiled as a glob pattern and
//! tested against the request path. A pattern that does not compile matches
//! nothing (fail-closed).

use vstd::prelude::*;

verus! {

/// Whether globset accepts the text as a well-formed glob pattern.
pub uninterp spec fn glob_compiles(pattern: Seq<char>) -> bool;

/// Whether the compiled glob pattern matches the path, as globset decides it.
pub uninterp spec fn glob_accepts(pattern: Seq<char>, path: Seq<char>) -> bool;

/// Relies on globset's `Glob::new` (whether the pattern compiles),
/// `compile_matcher` and `GlobMatcher::is_match` (whether it matches the
/// path): both are functions of the two texts alone. A pattern that does not
/// compile matches nothing.
#[verifier::external_body]
pub(crate) fn glob_is_match(pattern: &str, path: &str) -> (r: bool)
    ensures
        r == (glob_compiles(pattern@) && glob_accepts(pattern@, path@)),
{
    match globset::Glob::new(pattern) {
        Ok(glob) => glob.compile_matcher().is_match(path),
        Err(_) => false,
    }
}

} // verus!
