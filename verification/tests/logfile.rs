use monitor::logfile::{log_directory_of, log_file_name_of, LogRecord};
use monitor::timestamp::Timestamp;

fn stamped(millisecond: u32) -> Timestamp {
    Timestamp::new(2024, 3, 16, 17, 50, 40, millisecond * 1_000_000).unwrap()
}

#[test]
fn the_file_name_is_command_time_and_extension() {
    assert_eq!(
        log_file_name_of("failing-program", &stamped(843)),
        "failing-program-2024-03-16-17-50-40-843.log"
    );
    assert_eq!(log_file_name_of("false", &stamped(0)), "false-2024-03-16-17-50-40-000.log");
}

#[test]
fn the_log_directory_lies_under_the_home_directory() {
    assert_eq!(log_directory_of("/home/alice"), "/home/alice/.local/share/monitor");
    assert_eq!(log_directory_of("/home/alice/"), "/home/alice/.local/share/monitor");
    assert_eq!(log_directory_of("/"), "/.local/share/monitor");
}

#[test]
fn a_record_holds_directory_name_and_bytes() {
    let record = LogRecord::new("/home/alice", "ls", &stamped(7), vec![0, 159, 146, 150, 10]);
    assert_eq!(record.directory, "/home/alice/.local/share/monitor");
    assert_eq!(record.file_name, "ls-2024-03-16-17-50-40-007.log");
    assert_eq!(record.contents, vec![0, 159, 146, 150, 10]);
    assert_eq!(record.path(), "/home/alice/.local/share/monitor/ls-2024-03-16-17-50-40-007.log");
}

#[test]
fn failures_in_different_milliseconds_get_different_files() {
    let first = LogRecord::new("/home/alice", "false", &stamped(100), Vec::new());
    let second = LogRecord::new("/home/alice", "false", &stamped(101), Vec::new());
    assert_ne!(first.path(), second.path());
}

#[test]
fn failures_in_the_same_millisecond_share_a_file() {
    let early = Timestamp::new(2024, 3, 16, 17, 50, 40, 100_000_001).unwrap();
    let late = Timestamp::new(2024, 3, 16, 17, 50, 40, 100_999_999).unwrap();
    let first = LogRecord::new("/home/alice", "false", &early, vec![1]);
    let second = LogRecord::new("/home/alice", "false", &late, vec![2]);
    assert_eq!(first.path(), second.path());
}
