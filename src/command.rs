//! Shell commands and their results.

use vstd::prelude::*;
use vstd::string::StringExecFns;
use crate::error::Error;
use crate::text::{trim_end, trim_end_spec};

verus! {

/// A shell command line, handed to the shell as it stands.
#[derive(Debug, Clone)]
pub struct Command {
    pub cmd: String,
}

/// What one run of a command produced: its exit status and its output
/// streams without trailing white space.
#[derive(Debug, Clone)]
pub struct CommandResult {
    pub exit_code: i32,
    pub stdout: String,
    pub stderr: String,
}

impl Command {
    pub fn new(cmd: &str) -> (r: Command)
        ensures
            r.cmd@ == cmd@,
    {
        Command { cmd: String::from_str(cmd) }
    }
}

impl CommandResult {
    /// The result of a local run of a process: its exit status as the
    /// operating system reported it (`None` when a signal ended it) and its
    /// decoded output streams.
    pub fn from_output(status: Option<i32>, stdout: &str, stderr: &str) -> (r: Result<
        CommandResult,
        Error,
    >)
        ensures
            status is None <==> r is Err,
            r is Err ==> r matches Err(Error::Generic(_)),
            r matches Ok(c) ==> {
                &&& c.exit_code == status.unwrap()
                &&& c.stdout@ == trim_end_spec(stdout@)
                &&& c.stderr@ == trim_end_spec(stderr@)
            },
    {
        match status {
            Some(code) => Ok(
                CommandResult { exit_code: code, stdout: trim_end(stdout), stderr: trim_end(stderr) },
            ),
            None => Err(Error::Generic(String::from_str("Process was terminated by a signal"))),
        }
    }
}

} // verus!
