//! Decision logic of a "run until it fails" command supervisor.
//!
//! The supervisor runs one command again and again.  A run that succeeds is
//! reported on the console; a run that fails is reported too, and what it
//! wrote to its standard error is kept in a log file of its own under the
//! user's home directory.  This crate holds everything the supervisor
//! decides: how a command name is resolved, what a run's outcome leads to,
//! and how a log file is named.  Starting processes and touching the file
//! system is left to the caller.

pub mod command;
pub mod error;
pub mod logfile;
pub mod path;
pub mod resolve;
pub mod runner;
pub mod supervisor;
pub mod text;
pub mod timestamp;
