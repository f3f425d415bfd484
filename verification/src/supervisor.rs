//! What the supervisor does with the outcome of each run.
//!
//! The supervisor has one state, running, and leaves it only when it is
//! cancelled from outside: no outcome of a run ends the loop.  Each outcome
//! is turned into a plan: the lines to put on the console, and the log file
//! to write, if any.

use crate::command::{CommandView, ResolvedCommand, ResolvedView};
use crate::error::{ErrorView, MonitorError};
use crate::logfile::{
    home_directory, law_log_file_stands_in_directory, log_directory, log_record, LogRecord,
    LogRecordView, LOG_EXTENSION,
};
use crate::path::{base_name, has_no_slash, lemma_base_name};
use crate::resolve::{candidates, first_hit, probes_in_reach, resolution, resolved_view};
use crate::runner::{ExecutionResult, ExitStatus, Outcome, OutcomeView};
use crate::timestamp::Timestamp;
use vstd::prelude::*;

verus! {

/// The console line for a run that succeeded.
pub const SUCCESS_LINE: &'static str = "Command executed successfully";

/// How a console line is marked.
#[derive(Clone, Copy, Debug, PartialEq, Eq, Structural)]
pub enum Level {
    Info,
    Error,
}

/// One line for the console.
#[derive(Clone, Debug, PartialEq, Eq)]
pub struct Report {
    pub level: Level,
    pub text: String,
}

/// The mathematical content of a [`Report`].
pub struct ReportView {
    pub level: Level,
    pub text: Seq<char>,
}

impl View for Report {
    type V = ReportView;

    open spec fn view(&self) -> ReportView {
        ReportView { level: self.level, text: self.text@ }
    }
}

/// What one iteration leads to: the lines to put on the console, in order,
/// and the log file to write, if there is one.
#[derive(Clone, Debug, PartialEq, Eq)]
pub struct IterationPlan {
    pub reports: Vec<Report>,
    pub log: Option<LogRecord>,
}

/// The mathematical content of an [`IterationPlan`].
pub struct PlanView {
    pub reports: Seq<ReportView>,
    pub log: Option<LogRecordView>,
}

impl View for IterationPlan {
    type V = PlanView;

    open spec fn view(&self) -> PlanView {
        PlanView {
            reports: self.reports@.map_values(|report: Report| report@),
            log: match self.log {
                Some(record) => Some(record@),
                None => None,
            },
        }
    }
}

/// How the supervisor starts: it runs the command that was found, or it
/// gives up with one line for the console before any run.
#[derive(Clone, Debug, PartialEq, Eq)]
pub enum Startup {
    Run(ResolvedCommand),
    Abort(Report),
}

/// The mathematical content of a [`Startup`].
pub enum StartupView {
    Run(ResolvedView),
    Abort(ReportView),
}

impl View for Startup {
    type V = StartupView;

    open spec fn view(&self) -> StartupView {
        match self {
            Startup::Run(command) => StartupView::Run(command@),
            Startup::Abort(report) => StartupView::Abort(report@),
        }
    }
}

/// Whether the loop goes on.
#[derive(Clone, Copy, Debug, PartialEq, Eq, Structural)]
pub enum Control {
    Continue,
    Stop,
}

/// The console line for an error.
pub open spec fn error_line(error: ErrorView) -> ReportView {
    ReportView { level: Level::Error, text: error.message() }
}

/// The console line for a run that failed: how it ended, and when.
pub open spec fn failure_line(status: ExitStatus, stamp: Timestamp) -> ReportView {
    ReportView {
        level: Level::Error,
        text: ErrorView::ExecutionFailure(status).message() + " at "@ + stamp.text(),
    }
}

/// How the supervisor starts on what resolving the command came to: a
/// command that was found is run, and an error ends the supervisor with its
/// console line, before the loop is entered.
pub open spec fn started(resolution: Result<ResolvedView, ErrorView>) -> StartupView {
    match resolution {
        Ok(command) => StartupView::Run(command),
        Err(error) => StartupView::Abort(error_line(error)),
    }
}

/// The plan for one iteration.  `stamp` is the time at which the outcome was
/// seen and `home` the user's home directory, if it is known; both matter
/// only where the run failed.
///
/// A run that succeeded is reported with one informational line, and nothing
/// is logged.  A run that could not be started is reported with one error
/// line, and nothing is logged.  A run that failed is reported with one
/// error line, and its standard error goes into one log file, named by the
/// command's base name and the time; where the home directory is unknown a
/// second error line says so, and nothing is logged.
pub open spec fn planned(
    command: ResolvedView,
    outcome: OutcomeView,
    stamp: Timestamp,
    home: Option<Seq<char>>,
) -> PlanView {
    match outcome {
        OutcomeView::SpawnFailed(reason) => PlanView {
            reports: seq![error_line(ErrorView::SpawnFailure(reason))],
            log: None,
        },
        OutcomeView::Completed(result) => if result.status.is_success() {
            PlanView {
                reports: seq![ReportView { level: Level::Info, text: SUCCESS_LINE@ }],
                log: None,
            }
        } else {
            match home {
                Some(home) => PlanView {
                    reports: seq![failure_line(result.status, stamp)],
                    log: Some(log_record(home, base_name(command.program), stamp, result.stderr)),
                },
                None => PlanView {
                    reports: seq![
                        failure_line(result.status, stamp),
                        error_line(ErrorView::HomeDirectoryUnavailable),
                    ],
                    log: None,
                },
            }
        },
    }
}

/// Whether the loop goes on after an iteration.  The outcome of the run has
/// no say in it: the loop stops when it was cancelled, and only then.
pub open spec fn next_control(outcome: OutcomeView, cancelled: bool) -> Control {
    if cancelled {
        Control::Stop
    } else {
        Control::Continue
    }
}

/// How a run's outcome counts as an error, if it does.
pub open spec fn outcome_error(outcome: OutcomeView) -> Option<ErrorView> {
    match outcome {
        OutcomeView::SpawnFailed(reason) => Some(ErrorView::SpawnFailure(reason)),
        OutcomeView::Completed(result) => if result.status.is_success() {
            None
        } else {
            Some(ErrorView::ExecutionFailure(result.status))
        },
    }
}

/// Tells a run that succeeded from one that did not, and says what went
/// wrong with the latter.
pub fn classify(outcome: &Outcome) -> (verdict: Result<(), MonitorError>)
    ensures
        match verdict {
            Ok(_) => outcome_error(outcome@) is None,
            Err(error) => outcome_error(outcome@) == Some(error@),
        },
{
    match outcome {
        Outcome::SpawnFailed(reason) => Err(MonitorError::SpawnFailure(reason.clone())),
        Outcome::Completed(result) => if result.status.success() {
            Ok(())
        } else {
            Err(MonitorError::ExecutionFailure(result.status))
        },
    }
}

/// The console line for an error.
pub fn report_error(error: &MonitorError) -> (report: Report)
    ensures
        report@ == error_line(error@),
{
    Report { level: Level::Error, text: error.message() }
}

/// Starts the supervisor on what resolving the command came to.
pub fn begin(resolution: Result<ResolvedCommand, MonitorError>) -> (startup: Startup)
    ensures
        startup@ == started(resolved_view(resolution)),
{
    match resolution {
        Ok(command) => Startup::Run(command),
        Err(error) => Startup::Abort(report_error(&error)),
    }
}

/// The plan after a run that succeeded.
fn plan_success() -> (plan: IterationPlan)
    ensures
        plan@ == (PlanView {
            reports: seq![ReportView { level: Level::Info, text: SUCCESS_LINE@ }],
            log: None,
        }),
{
    let mut reports: Vec<Report> = Vec::new();
    let report = Report { level: Level::Info, text: String::from_str(SUCCESS_LINE) };
    reports.push(report);
    let plan = IterationPlan { reports, log: None };
    assert(plan@.reports =~= seq![report@]);
    plan
}

/// The plan after a run that could not be started.
fn plan_spawn_failure(reason: String) -> (plan: IterationPlan)
    ensures
        plan@ == (PlanView {
            reports: seq![error_line(ErrorView::SpawnFailure(reason@))],
            log: None,
        }),
{
    let mut reports: Vec<Report> = Vec::new();
    let report = report_error(&MonitorError::SpawnFailure(reason));
    reports.push(report);
    let plan = IterationPlan { reports, log: None };
    assert(plan@.reports =~= seq![report@]);
    plan
}

/// The plan after a run that failed at the time `stamp`.
fn plan_failure(
    command: &ResolvedCommand,
    result: ExecutionResult,
    stamp: &Timestamp,
    home: Option<String>,
) -> (plan: IterationPlan)
    requires
        stamp.is_valid(),
        !result.status.is_success(),
    ensures
        plan@ == planned(command@, OutcomeView::Completed(result@), *stamp, home.deep_view()),
{
    let mut reports: Vec<Report> = Vec::new();
    let mut text = MonitorError::ExecutionFailure(result.status).message();
    text.append(" at ");
    let rendered = stamp.render();
    text.append(rendered.as_str());
    let failure = Report { level: Level::Error, text };
    reports.push(failure);
    match home {
        Some(home) => {
            let name = command.log_name();
            let record = LogRecord::new(home.as_str(), name.as_str(), stamp, result.stderr);
            let plan = IterationPlan { reports, log: Some(record) };
            assert(plan@.reports =~= seq![failure@]);
            plan
        },
        None => {
            let missing = report_error(&MonitorError::HomeDirectoryUnavailable);
            reports.push(missing);
            let plan = IterationPlan { reports, log: None };
            assert(plan@.reports =~= seq![failure@, missing@]);
            plan
        },
    }
}

/// Plans one iteration from the outcome of its run, the time at which the
/// outcome was seen, and the user's home directory.
pub fn plan_iteration(
    command: &ResolvedCommand,
    outcome: Outcome,
    stamp: &Timestamp,
    home: Option<String>,
) -> (plan: IterationPlan)
    requires
        stamp.is_valid(),
    ensures
        plan@ == planned(command@, outcome@, *stamp, home.deep_view()),
{
    match outcome {
        Outcome::SpawnFailed(reason) => plan_spawn_failure(reason),
        Outcome::Completed(result) => if result.status.success() {
            plan_success()
        } else {
            plan_failure(command, result, stamp, home)
        },
    }
}

/// Plans one iteration from the outcome of its run.  After a run that
/// failed, the clock is read and the user's home directory is asked for;
/// the plan is the one that [`plan_iteration`] makes of what came back.
/// After any other run neither is looked at.
pub fn handle_outcome(command: &ResolvedCommand, outcome: Outcome) -> (plan: IterationPlan)
    ensures
        exists|stamp: Timestamp, home: Option<Seq<char>>|
            stamp.is_valid() && plan@ == #[trigger] planned(command@, outcome@, stamp, home),
        !outcome@.is_failure() ==> forall|stamp: Timestamp, home: Option<Seq<char>>|
            plan@ == #[trigger] planned(command@, outcome@, stamp, home),
{
    let ghost epoch = Timestamp {
        year: 1970,
        month: 1,
        day: 1,
        hour: 0,
        minute: 0,
        second: 0,
        nanosecond: 0,
    };
    match outcome {
        Outcome::SpawnFailed(reason) => {
            let plan = plan_spawn_failure(reason);
            assert(epoch.is_valid() && plan@ == planned(command@, outcome@, epoch, None));
            plan
        },
        Outcome::Completed(result) => if result.status.success() {
            let plan = plan_success();
            assert(epoch.is_valid() && plan@ == planned(command@, outcome@, epoch, None));
            plan
        } else {
            let stamp = Timestamp::now();
            let home = home_directory();
            plan_failure(command, result, &stamp, home)
        },
    }
}

/// Decides whether the loop goes on after an iteration: it does, whatever
/// the run came to, until it is cancelled.
pub fn after_iteration(outcome: &Outcome, cancelled: bool) -> (control: Control)
    ensures
        control == next_control(outcome@, cancelled),
{
    if cancelled {
        Control::Stop
    } else {
        Control::Continue
    }
}

/// The plans of a run of iterations: one for each outcome, made with the
/// time stamp of the same position.
pub open spec fn plans_of(
    command: ResolvedView,
    outcomes: Seq<OutcomeView>,
    stamps: Seq<Timestamp>,
    home: Option<Seq<char>>,
) -> Seq<PlanView> {
    Seq::new(outcomes.len(), |i: int| planned(command, outcomes[i], stamps[i], home))
}

/// How many of the plans ask for a log file.
pub open spec fn log_count(plans: Seq<PlanView>) -> nat
    decreases plans.len(),
{
    if plans.len() == 0 {
        0
    } else {
        log_count(plans.drop_last()) + if plans.last().log is Some {
            1nat
        } else {
            0nat
        }
    }
}

/// How many of the outcomes are failed runs.
pub open spec fn failure_count(outcomes: Seq<OutcomeView>) -> nat
    decreases outcomes.len(),
{
    if outcomes.len() == 0 {
        0
    } else {
        failure_count(outcomes.drop_last()) + if outcomes.last().is_failure() {
            1nat
        } else {
            0nat
        }
    }
}

/// How many console lines of the plans are marked `level`.
pub open spec fn line_count(plans: Seq<PlanView>, level: Level) -> nat
    decreases plans.len(),
{
    if plans.len() == 0 {
        0
    } else {
        line_count(plans.drop_last(), level) + plans.last().reports.filter(
            |report: ReportView| report.level == level,
        ).len()
    }
}

/// A command that is found neither on the search path nor from the current
/// directory ends the supervisor before any run, with the line that names
/// it; every other command is run.
pub proof fn law_unresolved_command_aborts(
    command: CommandView,
    search_path: Seq<char>,
    executable: Seq<bool>,
    found_locally: bool,
)
    ensures
        started(resolution(command, search_path, executable, found_locally)) is Abort
            <==> !found_locally && first_hit(
            probes_in_reach(executable, candidates(command.name, search_path)),
        ) is None,
        started(resolution(command, search_path, executable, found_locally)) is Abort
            ==> started(resolution(command, search_path, executable, found_locally))
            == StartupView::Abort(error_line(ErrorView::CommandNotFound(command.name))),
{
}

/// A run that succeeded leaves no log file and one informational line on
/// the console, whatever the time and the home directory.
pub proof fn law_success_is_reported_not_logged(
    command: ResolvedView,
    outcome: OutcomeView,
    stamp: Timestamp,
    home: Option<Seq<char>>,
)
    requires
        outcome.is_success(),
    ensures
        planned(command, outcome, stamp, home).log is None,
        planned(command, outcome, stamp, home).reports == seq![
            ReportView { level: Level::Info, text: SUCCESS_LINE@ },
        ],
{
}

/// A run that failed leaves one log file where the home directory is known:
/// it stands in the log directory, its name is made of the base name of the
/// command's path, a hyphen, the time to the millisecond and `.log`, and it
/// holds the run's standard error byte for byte.  The console gets one line,
/// an error that names the exit status and the time.
pub proof fn law_failure_is_logged(
    command: ResolvedView,
    outcome: OutcomeView,
    stamp: Timestamp,
    home: Seq<char>,
)
    requires
        outcome.is_failure(),
    ensures
        planned(command, outcome, stamp, Some(home)).log == Some(
            LogRecordView {
                directory: log_directory(home),
                file_name: base_name(command.program) + seq!['-'] + stamp.text() + LOG_EXTENSION@,
                contents: outcome->Completed_0.stderr,
            },
        ),
        planned(command, outcome, stamp, Some(home)).reports == seq![
            failure_line(outcome->Completed_0.status, stamp),
        ],
{
}

/// The log file of a failed run stands in the log directory itself, whatever
/// the path of the command: its name holds no `/`, and its path ends in its
/// name.
pub proof fn law_failure_log_stands_in_log_directory(
    command: ResolvedView,
    outcome: OutcomeView,
    stamp: Timestamp,
    home: Seq<char>,
)
    requires
        outcome.is_failure(),
        stamp.is_valid(),
    ensures
        planned(command, outcome, stamp, Some(home)).log is Some,
        has_no_slash(planned(command, outcome, stamp, Some(home)).log->0.file_name),
        base_name(planned(command, outcome, stamp, Some(home)).log->0.path()) == planned(
            command,
            outcome,
            stamp,
            Some(home),
        ).log->0.file_name,
{
    lemma_base_name(command.program);
    law_log_file_stands_in_directory(
        home,
        base_name(command.program),
        stamp,
        outcome->Completed_0.stderr,
    );
}

/// Only a run that failed is logged: with the home directory known, a plan
/// asks for a log file exactly when the run failed.
pub proof fn law_logged_iff_failed(
    command: ResolvedView,
    outcome: OutcomeView,
    stamp: Timestamp,
    home: Seq<char>,
)
    ensures
        planned(command, outcome, stamp, Some(home)).log is Some <==> outcome.is_failure(),
{
}

/// Over any run of iterations, with the home directory known, as many log
/// files are asked for as runs failed.
pub proof fn law_one_log_per_failure(
    command: ResolvedView,
    outcomes: Seq<OutcomeView>,
    stamps: Seq<Timestamp>,
    home: Seq<char>,
)
    ensures
        log_count(plans_of(command, outcomes, stamps, Some(home))) == failure_count(outcomes),
    decreases outcomes.len(),
{
    let plans = plans_of(command, outcomes, stamps, Some(home));
    if outcomes.len() > 0 {
        let shorter = outcomes.drop_last();
        law_one_log_per_failure(command, shorter, stamps, home);
        assert(plans.drop_last() =~= plans_of(command, shorter, stamps, Some(home)));
        law_logged_iff_failed(command, outcomes.last(), stamps[outcomes.len() - 1], home);
    }
}

/// The loop does not end on its own: after any number of runs that all
/// failed, the supervisor has asked for one log file per run and one error
/// line per run, no informational line, and goes on unless it was
/// cancelled.
pub proof fn law_failures_do_not_stop_the_loop(
    command: ResolvedView,
    outcomes: Seq<OutcomeView>,
    stamps: Seq<Timestamp>,
    home: Seq<char>,
)
    requires
        forall|i: int| 0 <= i < outcomes.len() ==> (#[trigger] outcomes[i]).is_failure(),
    ensures
        log_count(plans_of(command, outcomes, stamps, Some(home))) == outcomes.len(),
        line_count(plans_of(command, outcomes, stamps, Some(home)), Level::Error)
            == outcomes.len(),
        line_count(plans_of(command, outcomes, stamps, Some(home)), Level::Info) == 0,
        forall|i: int|
            0 <= i < outcomes.len() ==> next_control(#[trigger] outcomes[i], false)
                == Control::Continue,
    decreases outcomes.len(),
{
    let plans = plans_of(command, outcomes, stamps, Some(home));
    if outcomes.len() > 0 {
        let shorter = outcomes.drop_last();
        assert forall|i: int| 0 <= i < shorter.len() implies (#[trigger] shorter[i]).is_failure(
        ) by {
            assert(shorter[i] == outcomes[i]);
        }
        law_failures_do_not_stop_the_loop(command, shorter, stamps, home);
        assert(plans.drop_last() =~= plans_of(command, shorter, stamps, Some(home)));
        let last = outcomes.last();
        assert(last.is_failure());
        let stamp = stamps[outcomes.len() - 1];
        law_failure_is_logged(command, last, stamp, home);
        let lines = plans.last().reports;
        let line = failure_line(last->Completed_0.status, stamp);
        assert(lines == seq![line]);
        lemma_one_line(line, Level::Error);
        lemma_one_line(line, Level::Info);
    }
}

/// A single line counts once for its own level and not for the other.
proof fn lemma_one_line(line: ReportView, level: Level)
    ensures
        seq![line].filter(|report: ReportView| report.level == level).len() == (if line.level
            == level {
            1nat
        } else {
            0nat
        }),
{
    let keep = |report: ReportView| report.level == level;
    reveal(Seq::filter);
    assert(seq![line].drop_last() =~= Seq::<ReportView>::empty());
    assert(seq![line].last() == line);
    assert(Seq::<ReportView>::empty().filter(keep) =~= Seq::<ReportView>::empty());
}

/// The outcome of a run has no say in whether the loop goes on.
pub proof fn law_outcome_does_not_end_the_loop(
    first: OutcomeView,
    second: OutcomeView,
    cancelled: bool,
)
    ensures
        next_control(first, cancelled) == next_control(second, cancelled),
        next_control(first, cancelled) == Control::Stop <==> cancelled,
{
}

/// The clock and the home directory matter only after a run that failed.
pub proof fn law_only_failures_read_the_clock(
    command: ResolvedView,
    outcome: OutcomeView,
    stamp: Timestamp,
    home: Option<Seq<char>>,
    other_stamp: Timestamp,
    other_home: Option<Seq<char>>,
)
    requires
        !outcome.is_failure(),
    ensures
        planned(command, outcome, stamp, home) == planned(
            command,
            outcome,
            other_stamp,
            other_home,
        ),
{
}

} // verus!
