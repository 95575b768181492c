//! Command lines for the external tools.
//!
//! Nothing here runs a program. The functions assemble an `xscript` command,
//! which the caller hands to an `xscript` environment.

use vstd::prelude::*;
use xscript::Cmd;

verus! {

/// A command for an external program: an `xscript::Cmd` over `String`.
///
/// The verifier does not look into the command. What it holds goes by the
/// names `command_line` and `working_dir`, and what the methods below say
/// of them is taken on trust from the source of `xscript`.
#[verifier::external_body]
#[derive(Debug)]
pub struct Command {
    /// The `xscript` command itself, for the caller to run.
    pub inner: Cmd<String>,
}

/// The program of a command followed by its arguments, in order.
pub uninterp spec fn command_line(cmd: Command) -> Seq<Seq<char>>;

/// The working directory a command is to run in, if it names one.
pub uninterp spec fn working_dir(cmd: Command) -> Option<Seq<char>>;

/// The characters of each string of `strings`, in order.
pub open spec fn texts(strings: Seq<String>) -> Seq<Seq<char>> {
    strings.map_values(|s: String| s@)
}

impl Command {
    /// Calls `Cmd::new`. Taken on trust from its source: the new command
    /// holds the program, no arguments and no working directory.
    #[verifier::external_body]
    pub(crate) fn new(program: &str) -> (cmd: Command)
        ensures
            command_line(cmd) == seq![program@],
            working_dir(cmd) == None::<Seq<char>>,
    {
        Command { inner: Cmd::new(program) }
    }

    /// Calls `Cmd::add_arg`. Taken on trust from its source: the argument
    /// is pushed behind those already there, and nothing else changes.
    #[verifier::external_body]
    pub(crate) fn add_arg(&mut self, arg: &str)
        ensures
            command_line(*final(self)) == command_line(*old(self)).push(arg@),
            working_dir(*final(self)) == working_dir(*old(self)),
    {
        self.inner.add_arg(arg);
    }

    /// Calls `Cmd::extend_args`. Taken on trust from its source: the
    /// arguments are pushed, in their order, behind those already there,
    /// and nothing else changes.
    #[verifier::external_body]
    pub(crate) fn extend_args(&mut self, args: &[String])
        ensures
            command_line(*final(self)) == command_line(*old(self)) + texts(args@),
            working_dir(*final(self)) == working_dir(*old(self)),
    {
        self.inner.extend_args(args);
    }

    /// Calls `Cmd::with_cwd`. Taken on trust from its source: the working
    /// directory is set to `cwd`, and the command line stays as it is.
    #[verifier::external_body]
    pub(crate) fn with_cwd(self, cwd: &str) -> (cmd: Command)
        ensures
            command_line(cmd) == command_line(self),
            working_dir(cmd) == Some(cwd@),
    {
        Command { inner: self.inner.with_cwd(cwd) }
    }
}

} // verus!
