//! Where the standard error of a failed run is kept.
//!
//! Each failure gets a file of its own in `.local/share/monitor` under the
//! user's home directory.  The file is named by the command's base name and
//! the time of the failure, to the millisecond, and holds the bytes that the
//! run wrote to its standard error, unchanged.

use crate::path::{base_name, has_no_slash, join_path, join_path_of, lemma_base_name_of_joined};
use crate::timestamp::{lemma_text_has_no_slash, lemma_text_injective, Timestamp};
use vstd::prelude::*;

verus! {

/// The log directory, as a path from the user's home directory.
pub const LOG_SUBDIRECTORY: &'static str = ".local/share/monitor";

/// The ending of a log file's name.
pub const LOG_EXTENSION: &'static str = ".log";

/// The directory that holds the log files of the user whose home directory
/// is `home`.
pub open spec fn log_directory(home: Seq<char>) -> Seq<char> {
    join_path(home, LOG_SUBDIRECTORY@)
}

/// The name of the log file for a failure of the command `command_name` at
/// the time `stamp`, for example `ls-2024-03-16-17-50-40-843.log`.
pub open spec fn log_file_name(command_name: Seq<char>, stamp: Timestamp) -> Seq<char> {
    command_name + seq!['-'] + stamp.text() + LOG_EXTENSION@
}

/// One log file to write: the directory to create if it is missing, the
/// file's name in it, and the bytes to put there in place of anything the
/// file held.
#[derive(Clone, Debug, PartialEq, Eq)]
pub struct LogRecord {
    pub directory: String,
    pub file_name: String,
    pub contents: Vec<u8>,
}

/// The mathematical content of a [`LogRecord`].
pub struct LogRecordView {
    pub directory: Seq<char>,
    pub file_name: Seq<char>,
    pub contents: Seq<u8>,
}

impl LogRecordView {
    /// The path of the log file.
    pub open spec fn path(self) -> Seq<char> {
        join_path(self.directory, self.file_name)
    }
}

impl View for LogRecord {
    type V = LogRecordView;

    open spec fn view(&self) -> LogRecordView {
        LogRecordView {
            directory: self.directory@,
            file_name: self.file_name@,
            contents: self.contents@,
        }
    }
}

/// The record of a failure: the log directory under `home`, the file name
/// made of `command_name` and `stamp`, and `stderr` as it was captured.
pub open spec fn log_record(
    home: Seq<char>,
    command_name: Seq<char>,
    stamp: Timestamp,
    stderr: Seq<u8>,
) -> LogRecordView {
    LogRecordView {
        directory: log_directory(home),
        file_name: log_file_name(command_name, stamp),
        contents: stderr,
    }
}

impl LogRecord {
    /// Makes the record of a failure of the command `command_name` at the
    /// time `stamp`, for the user whose home directory is `home`.
    pub fn new(home: &str, command_name: &str, stamp: &Timestamp, stderr: Vec<u8>) -> (record:
        LogRecord)
        requires
            stamp.is_valid(),
        ensures
            record@ == log_record(home@, command_name@, *stamp, stderr@),
    {
        LogRecord {
            directory: log_directory_of(home),
            file_name: log_file_name_of(command_name, stamp),
            contents: stderr,
        }
    }

    /// The path of the log file.
    pub fn path(&self) -> (path: String)
        ensures
            path@ == self@.path(),
    {
        join_path_of(self.directory.as_str(), self.file_name.as_str())
    }
}

/// The directory that holds the log files of the user whose home directory
/// is `home`.
pub fn log_directory_of(home: &str) -> (directory: String)
    ensures
        directory@ == log_directory(home@),
{
    join_path_of(home, LOG_SUBDIRECTORY)
}

/// The name of the log file for a failure of the command `command_name` at
/// the time `stamp`.
pub fn log_file_name_of(command_name: &str, stamp: &Timestamp) -> (file_name: String)
    requires
        stamp.is_valid(),
    ensures
        file_name@ == log_file_name(command_name@, *stamp),
{
    let mut file_name = String::from_str(command_name);
    file_name.append("-");
    proof {
        reveal_strlit("-");
        assert("-"@ =~= seq!['-']);
    }
    let rendered = stamp.render();
    file_name.append(rendered.as_str());
    file_name.append(LOG_EXTENSION);
    file_name
}

/// Asks `dirs::home_dir` for the user's home directory and hands the path
/// on as a string.  Nothing is claimed of the answer: it depends on the
/// variable `HOME` and on the user database.  A path that is not valid
/// Unicode is handed on as `None`.
#[verifier::external_body]
pub(crate) fn home_directory() -> (home: Option<String>) {
    match dirs::home_dir() {
        Some(path) => path.into_os_string().into_string().ok(),
        None => None,
    }
}

/// A log file's name holds no `/` where the command's name holds none: the
/// file stands in the log directory itself, and its path ends in its name.
pub proof fn law_log_file_stands_in_directory(
    home: Seq<char>,
    command_name: Seq<char>,
    stamp: Timestamp,
    stderr: Seq<u8>,
)
    requires
        stamp.is_valid(),
        has_no_slash(command_name),
    ensures
        has_no_slash(log_file_name(command_name, stamp)),
        base_name(log_record(home, command_name, stamp, stderr).path()) == log_file_name(
            command_name,
            stamp,
        ),
{
    let name = log_file_name(command_name, stamp);
    let text = stamp.text();
    lemma_text_has_no_slash(stamp);
    reveal_strlit(".log");
    assert forall|i: int| 0 <= i < name.len() implies name[i] != '/' by {
        if i < command_name.len() {
            assert(name[i] == command_name[i]);
        } else if i == command_name.len() {
            assert(name[i] == '-');
        } else if i < command_name.len() + 1 + text.len() {
            assert(name[i] == text[i - command_name.len() - 1]);
        } else {
            assert(name[i] == LOG_EXTENSION@[i - command_name.len() - 1 - text.len()]);
        }
    }
    lemma_base_name_of_joined(log_directory(home), name);
}

/// Two failures of one command are logged under the same name exactly when
/// they fall into the same millisecond: the later record then replaces the
/// earlier one, and failures at different milliseconds get files of their
/// own.
pub proof fn law_log_file_names_differ(command_name: Seq<char>, first: Timestamp, second: Timestamp)
    requires
        first.is_valid(),
        second.is_valid(),
    ensures
        log_file_name(command_name, first) == log_file_name(command_name, second)
            <==> first.same_millisecond(&second),
{
    lemma_text_injective(first, second);
    let a = log_file_name(command_name, first);
    let b = log_file_name(command_name, second);
    if a == b {
        let start: int = command_name.len() as int + 1;
        assert(a.len() == start + first.text().len() + LOG_EXTENSION@.len());
        assert(b.len() == start + second.text().len() + LOG_EXTENSION@.len());
        assert(first.text() =~= a.subrange(start, start + first.text().len()));
        assert(second.text() =~= b.subrange(start, start + second.text().len()));
    }
}

} // verus!
