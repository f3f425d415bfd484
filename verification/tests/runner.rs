use monitor::error::MonitorError;
use monitor::runner::ExitStatus;

#[test]
fn only_exit_code_zero_is_success() {
    assert_eq!(ExitStatus::Exited(0).success(), true);
    assert_eq!(ExitStatus::Exited(1).success(), false);
    assert_eq!(ExitStatus::Exited(-1).success(), false);
    assert_eq!(ExitStatus::Signaled(0).success(), false);
    assert_eq!(ExitStatus::Signaled(9).success(), false);
}

#[test]
fn a_status_names_the_exit_code_or_the_signal() {
    assert_eq!(ExitStatus::Exited(1).describe(), "exit status: 1");
    assert_eq!(ExitStatus::Exited(0).describe(), "exit status: 0");
    assert_eq!(ExitStatus::Exited(-3).describe(), "exit status: -3");
    assert_eq!(ExitStatus::Signaled(9).describe(), "signal: 9");
}

#[test]
fn each_error_has_its_console_line() {
    assert_eq!(
        MonitorError::CommandNotFound("nope".to_string()).message(),
        "Command not found: nope"
    );
    assert_eq!(
        MonitorError::SpawnFailure("Permission denied (os error 13)".to_string()).message(),
        "Permission denied (os error 13)"
    );
    assert_eq!(
        MonitorError::ExecutionFailure(ExitStatus::Exited(2)).message(),
        "Command failed with exit code exit status: 2"
    );
    assert_eq!(
        MonitorError::ExecutionFailure(ExitStatus::Signaled(15)).message(),
        "Command failed with exit code signal: 15"
    );
    assert_eq!(MonitorError::HomeDirectoryUnavailable.message(), "Could not get home directory");
    assert_eq!(
        MonitorError::IoFailure("No space left on device (os error 28)".to_string()).message(),
        "No space left on device (os error 28)"
    );
}

#[test]
fn only_a_missing_command_is_fatal() {
    assert_eq!(MonitorError::CommandNotFound("nope".to_string()).is_fatal(), true);
    assert_eq!(MonitorError::SpawnFailure("x".to_string()).is_fatal(), false);
    assert_eq!(MonitorError::ExecutionFailure(ExitStatus::Exited(1)).is_fatal(), false);
    assert_eq!(MonitorError::HomeDirectoryUnavailable.is_fatal(), false);
    assert_eq!(MonitorError::IoFailure("x".to_string()).is_fatal(), false);
}
