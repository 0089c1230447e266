//! The launch-command descriptor handed back to the host editor.

use vstd::prelude::*;

verus! {

/// A command the host can run: the executable to launch, the arguments to
/// pass, and the environment overrides to apply.
#[derive(Debug, PartialEq, Eq)]
pub struct Command {
    pub command: String,
    pub args: Vec<String>,
    pub env: Vec<(String, String)>,
}

/// The mathematical shape of a `Command`: every field as a sequence.
#[verifier::ext_equal]
pub struct CommandView {
    pub command: Seq<char>,
    pub args: Seq<Seq<char>>,
    pub env: Seq<(Seq<char>, Seq<char>)>,
}

impl View for Command {
    type V = CommandView;

    open spec fn view(&self) -> CommandView {
        CommandView {
            command: self.command@,
            args: self.args.deep_view(),
            env: self.env.deep_view(),
        }
    }
}

/// What a freshly built launch command for `path` holds: that path as the
/// executable, no arguments, and no environment overrides.
pub open spec fn launch_command(path: Seq<char>) -> CommandView {
    CommandView { command: path, args: Seq::empty(), env: Seq::empty() }
}

/// Wraps a resolved executable path into the launch-command shape the host
/// expects. Pure data construction: it cannot fail.
pub fn build_command(path: String) -> (c: Command)
    ensures
        c@ == launch_command(path@),
{
    let c = Command { command: path, args: Vec::new(), env: Vec::new() };
    proof {
        assert(c@ =~= launch_command(c.command@));
    }
    c
}

} // verus!
