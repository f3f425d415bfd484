//! The ways in which supervising a command can go wrong.

use crate::runner::ExitStatus;
use vstd::prelude::*;

verus! {

/// Everything that can go wrong while a command is supervised.
#[derive(Clone, Debug, PartialEq, Eq)]
pub enum MonitorError {
    /// No executable was found for the command of this name.
    CommandNotFound(String),
    /// The command could not be started; the text says why.
    SpawnFailure(String),
    /// The command ran and ended without success.
    ExecutionFailure(ExitStatus),
    /// The user's home directory could not be determined.
    HomeDirectoryUnavailable,
    /// The log directory or the log file could not be written; the text says
    /// why.
    IoFailure(String),
}

/// The mathematical content of a [`MonitorError`].
pub enum ErrorView {
    CommandNotFound(Seq<char>),
    SpawnFailure(Seq<char>),
    ExecutionFailure(ExitStatus),
    HomeDirectoryUnavailable,
    IoFailure(Seq<char>),
}

impl View for MonitorError {
    type V = ErrorView;

    open spec fn view(&self) -> ErrorView {
        match self {
            MonitorError::CommandNotFound(name) => ErrorView::CommandNotFound(name@),
            MonitorError::SpawnFailure(reason) => ErrorView::SpawnFailure(reason@),
            MonitorError::ExecutionFailure(status) => ErrorView::ExecutionFailure(*status),
            MonitorError::HomeDirectoryUnavailable => ErrorView::HomeDirectoryUnavailable,
            MonitorError::IoFailure(reason) => ErrorView::IoFailure(reason@),
        }
    }
}

impl ErrorView {
    /// Only a command that cannot be found ends the supervisor; every other
    /// error is reported and the loop goes on.
    pub open spec fn is_fatal(self) -> bool {
        self is CommandNotFound
    }

    /// The console line that reports the error.
    pub open spec fn message(self) -> Seq<char> {
        match self {
            ErrorView::CommandNotFound(name) => "Command not found: "@ + name,
            ErrorView::SpawnFailure(reason) => reason,
            ErrorView::ExecutionFailure(status) => "Command failed with exit code "@
                + status.text(),
            ErrorView::HomeDirectoryUnavailable => "Could not get home directory"@,
            ErrorView::IoFailure(reason) => reason,
        }
    }
}

impl MonitorError {
    /// Whether the supervisor has to stop on this error.
    pub fn is_fatal(&self) -> (fatal: bool)
        ensures
            fatal == self@.is_fatal(),
    {
        match self {
            MonitorError::CommandNotFound(_) => true,
            _ => false,
        }
    }

    /// The console line that reports the error.
    pub fn message(&self) -> (line: String)
        ensures
            line@ == self@.message(),
    {
        match self {
            MonitorError::CommandNotFound(name) => {
                let mut line = String::from_str("Command not found: ");
                line.append(name.as_str());
                line
            },
            MonitorError::SpawnFailure(reason) => reason.clone(),
            MonitorError::ExecutionFailure(status) => {
                let mut line = String::from_str("Command failed with exit code ");
                let described = status.describe();
                line.append(described.as_str());
                line
            },
            MonitorError::HomeDirectoryUnavailable => String::from_str(
                "Could not get home directory",
            ),
            MonitorError::IoFailure(reason) => reason.clone(),
        }
    }
}

} // verus!
