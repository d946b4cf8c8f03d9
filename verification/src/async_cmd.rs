//! Command execution: the errors of running an external command, and how
//! each way a run can end becomes the result the caller sees. The runs
//! themselves happen off the async runtime, around this module.

use vstd::prelude::*;

use crate::error::{error_message, Error};
use crate::text::{concat2, concat3, join, join_strings, push_str, strs, trim_str, trim};

use core::time::Duration;

verus! {

/// Default timeout for command execution, in seconds.
pub const DEFAULT_TIMEOUT_SECS: u64 = 30;

/// The duration of `secs` whole seconds, as `Duration::from_secs` gives it.
pub uninterp spec fn secs_duration(secs: u64) -> Duration;

/// Calls `Duration::from_secs`, whose result depends on `secs` alone; the
/// duration is opaque to Verus, so the contract only names it.
#[verifier::external_body]
fn duration_from_secs(secs: u64) -> (d: Duration)
    ensures
        d == secs_duration(secs),
{
    Duration::from_secs(secs)
}

/// The default timeout for command execution: 30 seconds.
pub fn default_timeout() -> (d: Duration)
    ensures
        d == secs_duration(DEFAULT_TIMEOUT_SECS),
{
    duration_from_secs(DEFAULT_TIMEOUT_SECS)
}

/// Error types specific to async command execution.
#[derive(Debug)]
pub enum AsyncCmdError {
    /// Command execution timed out.
    Timeout,
    /// Command was not found in PATH.
    NotFound(String),
    /// Command execution failed.
    ExecutionFailed(String),
    /// Command exited with non-zero status.
    NonZeroExit { cmd: String, stderr: String },
}

/// The message of an [`AsyncCmdError`].
pub open spec fn async_error_message(e: AsyncCmdError) -> Seq<char> {
    match e {
        AsyncCmdError::Timeout => "Command execution timed out"@,
        AsyncCmdError::NotFound(program) => "Command not found: "@ + program@,
        AsyncCmdError::ExecutionFailed(msg) => "Command execution failed: "@ + msg@,
        AsyncCmdError::NonZeroExit { cmd, stderr } => "Command '"@ + cmd@ + "' failed: "@ + stderr@,
    }
}

/// The crate error that an [`AsyncCmdError`] becomes: always a command
/// error, with the command (or what stands for it) and the error text.
pub open spec fn as_command_error(e: AsyncCmdError) -> (Seq<char>, Seq<char>) {
    match e {
        AsyncCmdError::Timeout => ("timeout"@, "Command execution timed out"@),
        AsyncCmdError::NotFound(program) => (program@, "Command not found: "@ + program@),
        AsyncCmdError::ExecutionFailed(msg) => ("unknown"@, msg@),
        AsyncCmdError::NonZeroExit { cmd, stderr } => (cmd@, stderr@),
    }
}

impl AsyncCmdError {
    /// Returns the human-readable message of the error.
    pub fn to_string(&self) -> (s: String)
        ensures
            s@ == async_error_message(*self),
    {
        match self {
            AsyncCmdError::Timeout => "Command execution timed out".to_owned(),
            AsyncCmdError::NotFound(program) => concat2("Command not found: ", program.as_str()),
            AsyncCmdError::ExecutionFailed(msg) => concat2(
                "Command execution failed: ",
                msg.as_str(),
            ),
            AsyncCmdError::NonZeroExit { cmd, stderr } => {
                let mut s = concat3("Command '", cmd.as_str(), "' failed: ");
                push_str(&mut s, stderr.as_str());
                s
            },
        }
    }

    /// Converts the error into a crate error.
    pub fn into_error(self) -> (e: Error)
        ensures
            e matches Error::Command { cmd, stderr } && (cmd@, stderr@) == as_command_error(self),
    {
        match self {
            AsyncCmdError::Timeout => Error::Command {
                cmd: "timeout".to_owned(),
                stderr: "Command execution timed out".to_owned(),
            },
            AsyncCmdError::NotFound(program) => {
                let stderr = concat2("Command not found: ", program.as_str());
                Error::Command { cmd: program, stderr }
            },
            AsyncCmdError::ExecutionFailed(msg) => Error::Command {
                cmd: "unknown".to_owned(),
                stderr: msg,
            },
            AsyncCmdError::NonZeroExit { cmd, stderr } => Error::Command { cmd, stderr },
        }
    }
}

/// The command line as it is reported in errors: the program, a space, and
/// the arguments separated by spaces.
pub open spec fn command_line(program: Seq<char>, args: Seq<Seq<char>>) -> Seq<char> {
    program + " "@ + join(args, " "@)
}

/// Formats a command line for error reports.
pub fn command_string(program: &str, args: &Vec<String>) -> (s: String)
    ensures
        s@ == command_line(program@, strs(args@)),
{
    let joined = join_strings(args, " ");
    concat3(program, " ", joined.as_str())
}

/// How the run of a command ended.
#[derive(Debug)]
pub enum CommandOutcome {
    /// The run did not end within the timeout.
    TimedOut,
    /// The task that ran the command could not be joined; its message.
    JoinFailed(String),
    /// The command could not be started.
    SpawnFailed(AsyncCmdError),
    /// The command exited: whether with success, and its standard error.
    Exited { success: bool, stderr: String },
}

/// The error that a run ends with, if any. A run that exited is fine when
/// exit statuses are not checked, or when it succeeded; otherwise it is a
/// non-zero exit with its trimmed standard error. A failed join names the
/// command line; spawn errors and timeouts are converted as they are.
pub open spec fn outcome_error(cmd: Seq<char>, outcome: CommandOutcome, checked: bool) -> Option<(
    Seq<char>,
    Seq<char>,
)> {
    match outcome {
        CommandOutcome::TimedOut => Some(as_command_error(AsyncCmdError::Timeout)),
        CommandOutcome::JoinFailed(msg) => Some((cmd, "Task join error: "@ + msg@)),
        CommandOutcome::SpawnFailed(e) => Some(as_command_error(e)),
        CommandOutcome::Exited { success, stderr } => if !checked || success {
            None
        } else {
            Some((cmd, trim(stderr@)))
        },
    }
}

/// Decides the result of a command run: `None` when the output goes to the
/// caller, or the error to return instead.
pub fn outcome_result(cmd: &str, outcome: CommandOutcome, checked: bool) -> (r: Option<Error>)
    ensures
        match outcome_error(cmd@, outcome, checked) {
            Some((c, s)) => r matches Some(Error::Command { cmd: rc, stderr: rs }) && rc@ == c
                && rs@ == s,
            None => r is None,
        },
{
    match outcome {
        CommandOutcome::TimedOut => Some(AsyncCmdError::Timeout.into_error()),
        CommandOutcome::JoinFailed(msg) => Some(
            Error::Command {
                cmd: cmd.to_owned(),
                stderr: concat2("Task join error: ", msg.as_str()),
            },
        ),
        CommandOutcome::SpawnFailed(e) => Some(e.into_error()),
        CommandOutcome::Exited { success, stderr } => {
            if !checked || success {
                None
            } else {
                let e = AsyncCmdError::NonZeroExit {
                    cmd: cmd.to_owned(),
                    stderr: trim_str(stderr.as_str()),
                };
                Some(e.into_error())
            }
        },
    }
}

/// Every command error reads as its message: converting an error keeps
/// what it says, but for a timeout and a missing program, whose message
/// becomes the error text.
pub proof fn law_nonzero_exit_keeps_text(cmd: String, stderr: String)
    ensures
        as_command_error(AsyncCmdError::NonZeroExit { cmd, stderr }) == (cmd@, stderr@),
        error_message(Error::Command { cmd, stderr }) == async_error_message(
            AsyncCmdError::NonZeroExit { cmd, stderr },
        ),
{
}

} // verus!
