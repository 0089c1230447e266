//! Resolution of the Pkl language-server binary.
//!
//! The host's search-path capability reports either the path of the server
//! binary or nothing; everything the extension then decides is a pure
//! function of that report, stated by [`resolution_step`] and proved of the
//! executable code below.

use vstd::prelude::*;

use crate::command::{build_command, launch_command, Command, CommandView};
use crate::host::worktree_which;

verus! {

/// The name of the server binary searched for on the workspace's path.
pub open spec fn server_name() -> Seq<char> {
    "pkl-lsp-server"@
}

/// The message reported when the search path holds no server binary.
pub open spec fn not_found_message() -> Seq<char> {
    "pkl-lsp-server not found"@
}

/// The outcome of one path resolution, decided by the search report alone:
/// a found path is returned as is; nothing found is the not-found error.
pub open spec fn resolution_outcome(lookup: Option<Seq<char>>) -> Result<Seq<char>, Seq<char>> {
    match lookup {
        Some(path) => Ok(path),
        None => Err(not_found_message()),
    }
}

/// The cached path after one resolution: a found path replaces the cache;
/// a failed search leaves it alone.
pub open spec fn cache_after(cache: Option<Seq<char>>, lookup: Option<Seq<char>>) -> Option<
    Seq<char>,
> {
    match lookup {
        Some(path) => Some(path),
        None => cache,
    }
}

/// The outcome of one launch-command request, decided by the search report
/// alone: a found path becomes a command with no arguments and no
/// environment overrides; nothing found is the not-found error.
pub open spec fn command_outcome(lookup: Option<Seq<char>>) -> Result<CommandView, Seq<char>> {
    match lookup {
        Some(path) => Ok(launch_command(path)),
        None => Err(not_found_message()),
    }
}

/// One full resolution as a state transition: what is returned, and the
/// cached path that remains.
pub open spec fn resolution_step(cache: Option<Seq<char>>, lookup: Option<Seq<char>>) -> (
    Result<CommandView, Seq<char>>,
    Option<Seq<char>>,
) {
    (command_outcome(lookup), cache_after(cache, lookup))
}

/// A path `Result` at the level of views.
pub open spec fn path_result_view(r: Result<String, String>) -> Result<Seq<char>, Seq<char>> {
    match r {
        Ok(path) => Ok(path@),
        Err(message) => Err(message@),
    }
}

/// A command `Result` at the level of views.
pub open spec fn command_result_view(r: Result<Command, String>) -> Result<
    CommandView,
    Seq<char>,
> {
    match r {
        Ok(c) => Ok(c@),
        Err(message) => Err(message@),
    }
}

/// The extension instance: one optional cached path, written on a successful
/// lookup and kept across calls.
pub struct PklLSExtension {
    pub cached_binary_path: Option<String>,
}

impl PklLSExtension {
    /// A fresh instance, with nothing cached yet.
    pub fn new() -> (e: Self)
        ensures
            e.cached_binary_path is None,
    {
        Self { cached_binary_path: None }
    }

    /// Decides the resolution from what the search-path capability reported:
    /// a found path is the result and is cached; nothing found is the
    /// not-found error, and the cache is left alone.
    pub fn binary_path_from_lookup(&mut self, lookup: Option<String>) -> (r: Result<
        String,
        String,
    >)
        ensures
            path_result_view(r) == resolution_outcome(lookup.deep_view()),
            final(self).cached_binary_path.deep_view() == cache_after(
                old(self).cached_binary_path.deep_view(),
                lookup.deep_view(),
            ),
            lookup is None ==> final(self).cached_binary_path == old(self).cached_binary_path,
    {
        match lookup {
            Some(path) => {
                self.cached_binary_path = Some(path.clone());
                Ok(path)
            },
            None => Err("pkl-lsp-server not found".to_string()),
        }
    }

    /// Resolves the server binary for a workspace: delegates the name lookup
    /// to the worktree's search-path capability and decides from what came
    /// back. Whatever the search reports, a success is the found path, now
    /// cached, and a failure carries the fixed not-found message with the
    /// cache untouched.
    pub fn language_server_binary_path(
        &mut self,
        _language_server_id: &zed_extension_api::LanguageServerId,
        worktree: &zed_extension_api::Worktree,
    ) -> (r: Result<String, String>)
        ensures
            r matches Ok(path) ==> final(self).cached_binary_path.deep_view() == Some(path@),
            r matches Err(message) ==> message@ == not_found_message()
                && final(self).cached_binary_path == old(self).cached_binary_path,
    {
        let lookup = worktree_which(worktree, "pkl-lsp-server");
        self.binary_path_from_lookup(lookup)
    }

    /// Decides the launch command from what the search-path capability
    /// reported: one full [`resolution_step`], a pure function of the report.
    pub fn language_server_command_from_lookup(&mut self, lookup: Option<String>) -> (r: Result<
        Command,
        String,
    >)
        ensures
            ({
                let (outcome, cache) = resolution_step(
                    old(self).cached_binary_path.deep_view(),
                    lookup.deep_view(),
                );
                command_result_view(r) == outcome && final(self).cached_binary_path.deep_view()
                    == cache
            }),
            lookup is None ==> final(self).cached_binary_path == old(self).cached_binary_path,
    {
        match self.binary_path_from_lookup(lookup) {
            Ok(path) => Ok(build_command(path)),
            Err(message) => Err(message),
        }
    }

    /// Produces the command the host uses to launch the server for a
    /// workspace: resolves the binary on the worktree's search path and wraps
    /// it. A success carries exactly the found path, no arguments and no
    /// environment overrides, and caches the path; a failure carries the
    /// fixed not-found message and leaves the cache untouched.
    pub fn language_server_command(
        &mut self,
        _language_server_id: &zed_extension_api::LanguageServerId,
        worktree: &zed_extension_api::Worktree,
    ) -> (r: Result<Command, String>)
        ensures
            r matches Ok(c) ==> c@.args.len() == 0 && c@.env.len() == 0
                && final(self).cached_binary_path.deep_view() == Some(c@.command),
            r matches Err(message) ==> message@ == not_found_message()
                && final(self).cached_binary_path == old(self).cached_binary_path,
    {
        let lookup = worktree_which(worktree, "pkl-lsp-server");
        self.language_server_command_from_lookup(lookup)
    }
}

/// The not-found message names the missing binary: it begins with the exact
/// name that was searched for.
pub proof fn lemma_not_found_message_names_server()
    ensures
        server_name().len() <= not_found_message().len(),
        not_found_message().subrange(0, server_name().len() as int) == server_name(),
{
    reveal_strlit("pkl-lsp-server");
    reveal_strlit("pkl-lsp-server not found");
    assert(not_found_message().subrange(0, server_name().len() as int) =~= server_name());
}

/// Resolution is idempotent: the outcome of a [`resolution_step`] is decided
/// by the search report alone, never by the cache, so a second step with an
/// unchanged report returns the same result as the first and moves the cache
/// nowhere.
pub proof fn lemma_resolution_idempotent(cache: Option<Seq<char>>, lookup: Option<Seq<char>>)
    ensures
        resolution_step(resolution_step(cache, lookup).1, lookup).0 == resolution_step(
            cache,
            lookup,
        ).0,
        resolution_step(resolution_step(cache, lookup).1, lookup).1 == resolution_step(
            cache,
            lookup,
        ).1,
{
}

} // verus!
