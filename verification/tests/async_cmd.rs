use std::time::Duration;

use ralphtool::async_cmd::{command_string, default_timeout, outcome_result, AsyncCmdError, CommandOutcome, DEFAULT_TIMEOUT_SECS};
use ralphtool::error::Error;

#[test]
fn default_timeout_is_30_seconds() {
    assert_eq!(default_timeout(), Duration::from_secs(30));
    assert_eq!(DEFAULT_TIMEOUT_SECS, 30);
}

#[test]
fn async_cmd_error_displays_correctly() {
    let timeout_err = AsyncCmdError::Timeout;
    assert!(timeout_err.to_string().contains("timed out"));

    let not_found = AsyncCmdError::NotFound("git".to_string());
    assert!(not_found.to_string().contains("not found"));
    assert!(not_found.to_string().contains("git"));

    let exec_failed = AsyncCmdError::ExecutionFailed("permission denied".to_string());
    assert!(exec_failed.to_string().contains("permission denied"));

    let non_zero = AsyncCmdError::NonZeroExit {
        cmd: "test".to_string(),
        stderr: "error message".to_string(),
    };
    assert!(non_zero.to_string().contains("test"));
    assert!(non_zero.to_string().contains("error message"));
}

#[test]
fn async_cmd_error_converts_to_error() {
    let timeout_err: Error = AsyncCmdError::Timeout.into_error();
    assert_eq!(timeout_err.code(), "COMMAND_ERROR");

    let not_found: Error = AsyncCmdError::NotFound("git".to_string()).into_error();
    assert_eq!(not_found.code(), "COMMAND_ERROR");
    assert_eq!(not_found.to_string(), "Command 'git' failed: Command not found: git");
}

#[test]
fn command_string_joins_arguments() {
    let args = vec!["status".to_string(), "--short".to_string()];
    assert_eq!(command_string("git", &args), "git status --short");
}

#[test]
fn outcome_of_a_run() {
    let ok = outcome_result("git x", CommandOutcome::Exited { success: true, stderr: String::new() }, true);
    assert!(ok.is_none());
    let unchecked = outcome_result("git x", CommandOutcome::Exited { success: false, stderr: "bad".to_string() }, false);
    assert!(unchecked.is_none());
    match outcome_result("git x", CommandOutcome::Exited { success: false, stderr: "  bad \n".to_string() }, true) {
        Some(Error::Command { cmd, stderr }) => {
            assert_eq!(cmd, "git x");
            assert_eq!(stderr, "bad");
        }
        other => panic!("unexpected {:?}", other),
    }
    match outcome_result("git x", CommandOutcome::TimedOut, true) {
        Some(e) => assert!(e.to_string().contains("timed out")),
        None => panic!("expected an error"),
    }
    match outcome_result("git x", CommandOutcome::JoinFailed("boom".to_string()), false) {
        Some(Error::Command { cmd, stderr }) => {
            assert_eq!(cmd, "git x");
            assert_eq!(stderr, "Task join error: boom");
        }
        other => panic!("unexpected {:?}", other),
    }
}
