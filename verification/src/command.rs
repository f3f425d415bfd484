//! Command lines, and the parts of a command's name.

use crate::error::{ErrorView, MonitorError};
use crate::path::{base_name, base_name_of};
use vstd::prelude::*;

verus! {

/// A command line as the user gave it: the command's name or path, and the
/// arguments to hand to it.
#[derive(Clone, Debug, PartialEq, Eq)]
pub struct CommandSpec {
    pub name: String,
    pub args: Vec<String>,
}

/// The mathematical content of a command line.
pub struct CommandView {
    pub name: Seq<char>,
    pub args: Seq<Seq<char>>,
}

impl CommandView {
    /// The words of the command line, the command's name first.
    pub open spec fn tokens(self) -> Seq<Seq<char>> {
        seq![self.name] + self.args
    }
}

impl View for CommandSpec {
    type V = CommandView;

    open spec fn view(&self) -> CommandView {
        CommandView { name: self.name@, args: self.args.deep_view() }
    }
}

impl CommandSpec {
    /// Reads a command line from its words: the first is the command, the
    /// others are its arguments.  An empty line names no command, so none is
    /// found: the error carries the empty name.
    pub fn from_tokens(tokens: Vec<String>) -> (made: Result<CommandSpec, MonitorError>)
        ensures
            match made {
                Ok(command) => command@.tokens() == tokens.deep_view(),
                Err(error) => tokens.len() == 0 && error@ == ErrorView::CommandNotFound(
                    Seq::<char>::empty(),
                ),
            },
    {
        let mut rest = tokens;
        if rest.len() == 0 {
            return Err(MonitorError::CommandNotFound(String::new()));
        }
        let name = rest.remove(0);
        Ok(CommandSpec { name, args: rest })
    }
}

/// A command whose executable has been found: the path to run, and the
/// arguments to hand to it.
#[derive(Clone, Debug, PartialEq, Eq)]
pub struct ResolvedCommand {
    pub program: String,
    pub args: Vec<String>,
}

/// The mathematical content of a resolved command.
pub struct ResolvedView {
    pub program: Seq<char>,
    pub args: Seq<Seq<char>>,
}

impl View for ResolvedCommand {
    type V = ResolvedView;

    open spec fn view(&self) -> ResolvedView {
        ResolvedView { program: self.program@, args: self.args.deep_view() }
    }
}

impl ResolvedCommand {
    /// The name under which the command's failures are logged: the last
    /// segment of its path.
    pub fn log_name(&self) -> (name: String)
        ensures
            name@ == base_name(self@.program),
    {
        base_name_of(self.program.as_str())
    }
}

} // verus!
