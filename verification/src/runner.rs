//! What one run of the supervised command leaves behind.

use crate::text::{signed_decimal, signed_decimal_string};
use vstd::prelude::*;

verus! {

/// How a child process ended.
#[derive(Clone, Copy, Debug, PartialEq, Eq, Structural)]
pub enum ExitStatus {
    /// The process returned this exit code.
    Exited(i32),
    /// The process was ended by this signal.
    Signaled(i32),
}

impl ExitStatus {
    /// A run succeeds when the process returns the exit code 0, and in no
    /// other case.
    pub open spec fn is_success(self) -> bool {
        self == ExitStatus::Exited(0)
    }

    /// How the status reads in a console message.
    pub open spec fn text(self) -> Seq<char> {
        match self {
            ExitStatus::Exited(code) => "exit status: "@ + signed_decimal(code as int),
            ExitStatus::Signaled(signal) => "signal: "@ + signed_decimal(signal as int),
        }
    }

    /// Whether the run succeeded.
    pub fn success(&self) -> (ok: bool)
        ensures
            ok == self.is_success(),
    {
        match self {
            ExitStatus::Exited(code) => *code == 0,
            ExitStatus::Signaled(_) => false,
        }
    }

    /// The status as a console message shows it.
    pub fn describe(&self) -> (described: String)
        ensures
            described@ == self.text(),
    {
        match self {
            ExitStatus::Exited(code) => {
                let mut described = String::from_str("exit status: ");
                let digits = signed_decimal_string(*code);
                described.append(digits.as_str());
                described
            },
            ExitStatus::Signaled(signal) => {
                let mut described = String::from_str("signal: ");
                let digits = signed_decimal_string(*signal);
                described.append(digits.as_str());
                described
            },
        }
    }
}

/// The result of a run that was started: how it ended, and every byte it
/// wrote to its standard error.
#[derive(Clone, Debug, PartialEq, Eq)]
pub struct ExecutionResult {
    pub status: ExitStatus,
    pub stderr: Vec<u8>,
}

/// The mathematical content of an [`ExecutionResult`].
pub struct ExecutionView {
    pub status: ExitStatus,
    pub stderr: Seq<u8>,
}

impl View for ExecutionResult {
    type V = ExecutionView;

    open spec fn view(&self) -> ExecutionView {
        ExecutionView { status: self.status, stderr: self.stderr@ }
    }
}

/// What one iteration of the supervisor gets back from the process runner.
#[derive(Clone, Debug, PartialEq, Eq)]
pub enum Outcome {
    /// The process ran to its end.
    Completed(ExecutionResult),
    /// The process could not be started; the text says why.
    SpawnFailed(String),
}

/// The mathematical content of an [`Outcome`].
pub enum OutcomeView {
    Completed(ExecutionView),
    SpawnFailed(Seq<char>),
}

impl View for Outcome {
    type V = OutcomeView;

    open spec fn view(&self) -> OutcomeView {
        match self {
            Outcome::Completed(result) => OutcomeView::Completed(result@),
            Outcome::SpawnFailed(reason) => OutcomeView::SpawnFailed(reason@),
        }
    }
}

impl OutcomeView {
    /// A run succeeded when it was started and ended with success.
    pub open spec fn is_success(self) -> bool {
        self matches OutcomeView::Completed(result) && result.status.is_success()
    }

    /// A run failed when it was started and ended otherwise.
    pub open spec fn is_failure(self) -> bool {
        self matches OutcomeView::Completed(result) && !result.status.is_success()
    }
}

} // verus!
