//! Error type with machine-readable codes.

use vstd::prelude::*;

use crate::text::{concat2, concat4};

verus! {

/// Errors of ralphtool operations.
#[derive(Debug)]
pub enum Error {
    /// Change not found.
    ChangeNotFound(String),
    /// Task not found.
    TaskNotFound(String),
    /// Story not found.
    StoryNotFound(String),
    /// IO error, with the message of the underlying error.
    Io(String),
    /// JSON parsing error, with the message of the underlying error.
    Json(String),
    /// Command execution error.
    Command { cmd: String, stderr: String },
    /// Parse error.
    Parse(String),
    /// The coding-agent CLI was not found.
    ClaudeNotFound,
    /// Agent execution error.
    AgentExecution(String),
    /// Agent output error.
    AgentOutput(String),
}

/// Abstract value of an [`Error`]: its variant with its texts.
pub enum ErrorView {
    ChangeNotFound(Seq<char>),
    TaskNotFound(Seq<char>),
    StoryNotFound(Seq<char>),
    Io(Seq<char>),
    Json(Seq<char>),
    Command { cmd: Seq<char>, stderr: Seq<char> },
    Parse(Seq<char>),
    ClaudeNotFound,
    AgentExecution(Seq<char>),
    AgentOutput(Seq<char>),
}

impl View for Error {
    type V = ErrorView;

    open spec fn view(&self) -> ErrorView {
        match self {
            Error::ChangeNotFound(s) => ErrorView::ChangeNotFound(s@),
            Error::TaskNotFound(s) => ErrorView::TaskNotFound(s@),
            Error::StoryNotFound(s) => ErrorView::StoryNotFound(s@),
            Error::Io(s) => ErrorView::Io(s@),
            Error::Json(s) => ErrorView::Json(s@),
            Error::Command { cmd, stderr } => ErrorView::Command { cmd: cmd@, stderr: stderr@ },
            Error::Parse(s) => ErrorView::Parse(s@),
            Error::ClaudeNotFound => ErrorView::ClaudeNotFound,
            Error::AgentExecution(s) => ErrorView::AgentExecution(s@),
            Error::AgentOutput(s) => ErrorView::AgentOutput(s@),
        }
    }
}

/// The machine-readable code of an error.
pub open spec fn error_code(e: Error) -> Seq<char> {
    match e {
        Error::ChangeNotFound(_) => "CHANGE_NOT_FOUND"@,
        Error::TaskNotFound(_) => "TASK_NOT_FOUND"@,
        Error::StoryNotFound(_) => "STORY_NOT_FOUND"@,
        Error::Io(_) => "IO_ERROR"@,
        Error::Json(_) => "JSON_ERROR"@,
        Error::Command { .. } => "COMMAND_ERROR"@,
        Error::Parse(_) => "PARSE_ERROR"@,
        Error::ClaudeNotFound => "CLAUDE_NOT_FOUND"@,
        Error::AgentExecution(_) => "AGENT_EXECUTION_ERROR"@,
        Error::AgentOutput(_) => "AGENT_OUTPUT_ERROR"@,
    }
}

/// The human-readable message of an error.
pub open spec fn error_message(e: Error) -> Seq<char> {
    match e {
        Error::ChangeNotFound(name) => "Change not found: "@ + name@,
        Error::TaskNotFound(id) => "Task not found: "@ + id@,
        Error::StoryNotFound(id) => "Story not found: "@ + id@,
        Error::Io(msg) => "IO error: "@ + msg@,
        Error::Json(msg) => "JSON error: "@ + msg@,
        Error::Command { cmd, stderr } => "Command '"@ + cmd@ + "' failed: "@ + stderr@,
        Error::Parse(msg) => "Parse error: "@ + msg@,
        Error::ClaudeNotFound => "Coding agent CLI not found.\nPlease ensure it is installed and in your PATH."@,
        Error::AgentExecution(msg) => "Agent execution error: "@ + msg@,
        Error::AgentOutput(msg) => "Agent output error: "@ + msg@,
    }
}

impl Error {
    /// Returns a machine-readable error code.
    pub fn code(&self) -> (c: &'static str)
        ensures
            c@ == error_code(*self),
    {
        match self {
            Error::ChangeNotFound(_) => "CHANGE_NOT_FOUND",
            Error::TaskNotFound(_) => "TASK_NOT_FOUND",
            Error::StoryNotFound(_) => "STORY_NOT_FOUND",
            Error::Io(_) => "IO_ERROR",
            Error::Json(_) => "JSON_ERROR",
            Error::Command { .. } => "COMMAND_ERROR",
            Error::Parse(_) => "PARSE_ERROR",
            Error::ClaudeNotFound => "CLAUDE_NOT_FOUND",
            Error::AgentExecution(_) => "AGENT_EXECUTION_ERROR",
            Error::AgentOutput(_) => "AGENT_OUTPUT_ERROR",
        }
    }

    /// Returns the human-readable message of the error.
    pub fn to_string(&self) -> (s: String)
        ensures
            s@ == error_message(*self),
    {
        match self {
            Error::ChangeNotFound(name) => concat2("Change not found: ", name.as_str()),
            Error::TaskNotFound(id) => concat2("Task not found: ", id.as_str()),
            Error::StoryNotFound(id) => concat2("Story not found: ", id.as_str()),
            Error::Io(msg) => concat2("IO error: ", msg.as_str()),
            Error::Json(msg) => concat2("JSON error: ", msg.as_str()),
            Error::Command { cmd, stderr } => concat4(
                "Command '",
                cmd.as_str(),
                "' failed: ",
                stderr.as_str(),
            ),
            Error::Parse(msg) => concat2("Parse error: ", msg.as_str()),
            Error::ClaudeNotFound => "Coding agent CLI not found.\nPlease ensure it is installed and in your PATH.".to_owned(),
            Error::AgentExecution(msg) => concat2("Agent execution error: ", msg.as_str()),
            Error::AgentOutput(msg) => concat2("Agent output error: ", msg.as_str()),
        }
    }
}

} // verus!
