//! Trusted bindings to the host editor's extension API.
//!
//! The worktree handle and the search-path lookup are owned by the host; the
//! library only consumes them, so they are declared here and taken on trust.

use vstd::prelude::*;

verus! {

/// The host's worktree handle. Only the host can construct one; the library
/// reads it solely through the search-path lookup below.
#[verifier::external_type_specification]
#[verifier::external_body]
pub struct ExWorktree(zed_extension_api::Worktree);

/// The identifier the host assigns to a language-server session.
#[verifier::external_type_specification]
#[verifier::external_body]
pub struct ExLanguageServerId(zed_extension_api::LanguageServerId);

/// Relies on `zed_extension_api::Worktree::which`: asks the host for the full
/// path of a binary with the given name on the worktree's search path, `None`
/// when there is none. What comes back depends on the machine's state at
/// lookup time, so nothing is promised of it; callers decide from the value.
#[verifier::external_body]
pub(crate) fn worktree_which(
    worktree: &zed_extension_api::Worktree,
    binary_name: &str,
) -> Option<String> {
    worktree.which(binary_name)
}

} // verus!
