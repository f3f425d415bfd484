use monitor::command::ResolvedCommand;
use monitor::error::MonitorError;
use monitor::logfile::LogRecord;
use monitor::runner::{ExecutionResult, ExitStatus, Outcome};
use monitor::supervisor::{
    after_iteration, begin, classify, handle_outcome, plan_iteration, report_error, Control,
    IterationPlan, Level, Report, Startup,
};
use monitor::timestamp::Timestamp;

fn program(path: &str) -> ResolvedCommand {
    ResolvedCommand { program: path.to_string(), args: Vec::new() }
}

fn at(millisecond: u32) -> Timestamp {
    Timestamp::new(2024, 3, 16, 17, 50, 40, millisecond * 1_000_000).unwrap()
}

fn exited(code: i32, stderr: &[u8]) -> Outcome {
    let status = ExitStatus::Exited(code);
    Outcome::Completed(ExecutionResult { status, stderr: stderr.to_vec() })
}

fn error(text: &str) -> Report {
    Report { level: Level::Error, text: text.to_string() }
}

#[test]
fn a_success_is_reported_and_not_logged() {
    let plan = plan_iteration(
        &program("/usr/bin/true"),
        exited(0, b"a warning"),
        &at(1),
        Some("/home/alice".to_string()),
    );
    assert_eq!(
        plan,
        IterationPlan {
            reports: vec![Report {
                level: Level::Info,
                text: "Command executed successfully".to_string(),
            }],
            log: None,
        }
    );
}

#[test]
fn a_failure_is_reported_and_logged() {
    let plan = plan_iteration(
        &program("/usr/bin/ls"),
        exited(2, b"ls: cannot access 'x'\n"),
        &at(843),
        Some("/home/alice".to_string()),
    );
    assert_eq!(
        plan,
        IterationPlan {
            reports: vec![error(
                "Command failed with exit code exit status: 2 at 2024-03-16-17-50-40-843"
            )],
            log: Some(LogRecord {
                directory: "/home/alice/.local/share/monitor".to_string(),
                file_name: "ls-2024-03-16-17-50-40-843.log".to_string(),
                contents: b"ls: cannot access 'x'\n".to_vec(),
            }),
        }
    );
}

#[test]
fn a_signal_is_a_failure() {
    let outcome = Outcome::Completed(ExecutionResult {
        status: ExitStatus::Signaled(9),
        stderr: Vec::new(),
    });
    let plan = plan_iteration(&program("./spin"), outcome, &at(5), Some("/root".to_string()));
    assert_eq!(
        plan.reports,
        vec![error("Command failed with exit code signal: 9 at 2024-03-16-17-50-40-005")]
    );
    assert_eq!(
        plan.log.map(|record| record.path()),
        Some("/root/.local/share/monitor/spin-2024-03-16-17-50-40-005.log".to_string())
    );
}

#[test]
fn a_failure_without_home_directory_is_reported_twice_and_not_logged() {
    let plan = plan_iteration(&program("/bin/false"), exited(1, b"lost"), &at(0), None);
    assert_eq!(
        plan,
        IterationPlan {
            reports: vec![
                error("Command failed with exit code exit status: 1 at 2024-03-16-17-50-40-000"),
                error("Could not get home directory"),
            ],
            log: None,
        }
    );
}

#[test]
fn a_run_that_did_not_start_is_reported_and_not_logged() {
    let outcome = Outcome::SpawnFailed("Permission denied (os error 13)".to_string());
    let plan =
        plan_iteration(&program("./locked"), outcome, &at(0), Some("/home/alice".to_string()));
    assert_eq!(
        plan,
        IterationPlan { reports: vec![error("Permission denied (os error 13)")], log: None }
    );
}

#[test]
fn false_three_times_gives_three_empty_logs_and_three_error_lines() {
    let command = program("/usr/bin/false");
    let mut names = Vec::new();
    let mut errors = 0;
    let mut infos = 0;
    for run in 0..3 {
        let outcome = exited(1, b"");
        assert_eq!(after_iteration(&outcome, false), Control::Continue);
        let plan = plan_iteration(&command, outcome, &at(run), Some("/home/alice".to_string()));
        for report in &plan.reports {
            match report.level {
                Level::Error => errors += 1,
                Level::Info => infos += 1,
            }
        }
        let record = plan.log.unwrap();
        assert_eq!(record.contents.len(), 0);
        names.push(record.file_name);
    }
    assert_eq!(
        names,
        vec![
            "false-2024-03-16-17-50-40-000.log".to_string(),
            "false-2024-03-16-17-50-40-001.log".to_string(),
            "false-2024-03-16-17-50-40-002.log".to_string(),
        ]
    );
    assert_eq!(errors, 3);
    assert_eq!(infos, 0);
}

#[test]
fn the_log_holds_exactly_what_was_written_to_standard_error() {
    let command = ResolvedCommand {
        program: "/bin/sh".to_string(),
        args: vec!["-c".to_string(), "echo oops 1>&2; exit 2".to_string()],
    };
    let plan =
        plan_iteration(&command, exited(2, b"oops\n"), &at(9), Some("/home/alice".to_string()));
    let record = plan.log.unwrap();
    assert_eq!(record.contents, b"oops\n".to_vec());
    assert_eq!(record.file_name, "sh-2024-03-16-17-50-40-009.log");
}

#[test]
fn five_failures_in_a_row_leave_five_logs_and_a_running_loop() {
    let command = program("./flaky");
    let mut paths = Vec::new();
    let mut control = Control::Continue;
    for run in 0..5 {
        assert_eq!(control, Control::Continue);
        let outcome = exited(1, b"boom");
        control = after_iteration(&outcome, false);
        let plan = plan_iteration(&command, outcome, &at(run), Some("/home/alice".to_string()));
        let path = plan.log.unwrap().path();
        assert_eq!(paths.contains(&path), false);
        paths.push(path);
    }
    assert_eq!(paths.len(), 5);
    assert_eq!(control, Control::Continue);
}

#[test]
fn the_loop_stops_only_when_cancelled() {
    let failure = exited(1, b"");
    let success = exited(0, b"");
    let unstarted = Outcome::SpawnFailed("no".to_string());
    assert_eq!(after_iteration(&failure, false), Control::Continue);
    assert_eq!(after_iteration(&success, false), Control::Continue);
    assert_eq!(after_iteration(&unstarted, false), Control::Continue);
    assert_eq!(after_iteration(&failure, true), Control::Stop);
    assert_eq!(after_iteration(&success, true), Control::Stop);
    assert_eq!(after_iteration(&unstarted, true), Control::Stop);
}

#[test]
fn classify_tells_what_went_wrong() {
    assert_eq!(classify(&exited(0, b"noise")), Ok(()));
    assert_eq!(
        classify(&exited(3, b"")),
        Err(MonitorError::ExecutionFailure(ExitStatus::Exited(3)))
    );
    assert_eq!(
        classify(&Outcome::SpawnFailed("gone".to_string())),
        Err(MonitorError::SpawnFailure("gone".to_string()))
    );
}

#[test]
fn an_error_is_reported_by_its_message() {
    assert_eq!(
        report_error(&MonitorError::IoFailure("disk full".to_string())),
        error("disk full")
    );
    assert_eq!(
        report_error(&MonitorError::CommandNotFound("nope".to_string())),
        error("Command not found: nope")
    );
}

#[test]
fn handling_a_success_needs_no_clock() {
    let plan = handle_outcome(&program("/usr/bin/true"), exited(0, b""));
    assert_eq!(
        plan,
        IterationPlan {
            reports: vec![Report {
                level: Level::Info,
                text: "Command executed successfully".to_string(),
            }],
            log: None,
        }
    );
}

#[test]
fn handling_a_failure_stamps_it_with_the_current_time() {
    let plan = handle_outcome(&program("/usr/bin/false"), exited(1, b"late"));
    assert_eq!(plan.reports[0].level, Level::Error);
    assert_eq!(
        plan.reports[0].text.starts_with("Command failed with exit code exit status: 1 at "),
        true
    );
    match plan.log {
        Some(record) => {
            assert_eq!(plan.reports.len(), 1);
            assert_eq!(record.contents, b"late".to_vec());
            assert_eq!(record.directory.ends_with(".local/share/monitor"), true);
            assert_eq!(record.file_name.starts_with("false-"), true);
            assert_eq!(record.file_name.ends_with(".log"), true);
            assert_eq!(record.file_name.len(), "false-".len() + 23 + ".log".len());
        }
        None => assert_eq!(plan.reports[1], error("Could not get home directory")),
    }
}

#[test]
fn a_command_that_was_found_is_run() {
    assert_eq!(begin(Ok(program("/usr/bin/ls"))), Startup::Run(program("/usr/bin/ls")));
}

#[test]
fn a_command_that_was_not_found_ends_the_supervisor() {
    assert_eq!(
        begin(Err(MonitorError::CommandNotFound("nope".to_string()))),
        Startup::Abort(error("Command not found: nope"))
    );
}
