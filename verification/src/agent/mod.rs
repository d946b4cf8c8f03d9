//! Coding agent layer: the prompt handed to an agent, the arguments of the
//! coding-agent CLI, and the logic of the `agent` subcommands that agents call
//! back into.

pub mod claude;
pub mod cli;
pub mod context;
pub mod progress;
pub mod prompt;
pub mod session;
pub mod tasks;
pub mod verify;

pub use claude::ClaudeAgent;
pub use prompt::PromptBuilder;

use vstd::prelude::*;

verus! {

/// Prompt for a coding agent with separate system and user components.
#[derive(Debug, Clone, Default)]
pub struct Prompt {
    /// System prompt (appended to the agent's default system prompt).
    pub system: String,
    /// User prompt (the main instruction).
    pub user: String,
}

} // verus!
