//! Joining a path inside the worktree to the worktree's root.

use vstd::prelude::*;

verus! {

/// `path` adjoined to `base` by the path rules of the platform that the
/// library is built for.
pub uninterp spec fn joined_path(base: Seq<char>, path: Seq<char>) -> Seq<char>;

/// Calls `std::path::Path::join` on strings.
///
/// Trusted: the joined path depends on the two strings alone, so it is the
/// named `joined_path(base, path)`. Both are UTF-8, so is what comes out, and
/// turning it back into a `String` loses nothing.
#[verifier::external_body]
pub(crate) fn join(base: &str, path: &str) -> (joined: String)
    ensures
        joined@ == joined_path(base@, path@),
{
    std::path::Path::new(base).join(path).to_string_lossy().into_owned()
}

} // verus!
