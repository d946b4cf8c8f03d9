//! Commands of the agent CLI, as plain values. The command-line parser that
//! produces them lives with the program.

use vstd::prelude::*;

verus! {

/// Root-level commands.
#[derive(Debug, Clone)]
pub enum RootCommand {
    /// Agent CLI for machine-to-machine interaction.
    Agent {
        /// The agent subcommand.
        command: AgentCommand,
    },
}

/// Agent subcommands for machine-to-machine interaction.
#[derive(Debug, Clone)]
pub enum AgentCommand {
    /// Session lifecycle management (for orchestrator use).
    Session(SessionCommand),
    /// Get context for the current story.
    Context,
    /// Task operations.
    Task(TaskCommand),
    /// Check current progress status.
    Status,
    /// Record a learning.
    Learn(LearnArgs),
}

/// Session lifecycle commands (used by the orchestrator).
#[derive(Debug, Clone)]
pub enum SessionCommand {
    /// Initialize a new session for a change.
    Init(SessionInitArgs),
    /// Get the next incomplete story.
    NextStory,
    /// Flush accumulated state and clean up.
    Flush,
}

/// Arguments for the session init command.
#[derive(Debug, Clone)]
pub struct SessionInitArgs {
    /// Name of the change to work on.
    pub change: String,
}

/// Task operation commands.
#[derive(Debug, Clone)]
pub enum TaskCommand {
    /// Mark a task as complete.
    Done(TaskDoneArgs),
}

/// Arguments for the task done command.
#[derive(Debug, Clone)]
pub struct TaskDoneArgs {
    /// Task ID to mark as complete (e.g., "2.1").
    pub task_id: String,
}

/// Arguments for the learn command.
#[derive(Debug, Clone)]
pub struct LearnArgs {
    /// Learning description.
    pub description: String,
    /// Optional task ID this learning relates to.
    pub task: Option<String>,
}

} // verus!
