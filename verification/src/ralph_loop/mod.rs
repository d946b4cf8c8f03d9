//! Loop orchestration for the Ralph Loop: the story-by-story decisions of
//! the orchestrator, the loop state it reports, and the learnings file
//! conventions.

pub mod learnings;
pub mod orchestrator;

pub use orchestrator::DEFAULT_MAX_RETRIES;

use vstd::prelude::*;

verus! {

/// Default timeout in seconds for external commands (git, openspec).
pub const DEFAULT_COMMAND_TIMEOUT_SECS: u64 = 30;

/// State tracking for the loop execution: the current story and overall
/// progress.
#[derive(Debug, Clone)]
pub struct LoopState {
    /// Name of the change being processed.
    pub change_name: String,
    /// Whether the loop is running.
    pub running: bool,
    /// ID of the current story being worked on.
    pub current_story_id: Option<String>,
    /// Total number of stories.
    pub total_stories: usize,
    /// Number of completed stories.
    pub completed_stories: usize,
    /// IDs of stories that have been started, in order.
    pub started_story_ids: Vec<String>,
}

impl LoopState {
    /// Create a new loop state for a change: not running, no story, no
    /// progress.
    pub fn new(change_name: &str) -> (s: Self)
        ensures
            s.change_name@ == change_name@,
            !s.running,
            s.current_story_id is None,
            s.total_stories == 0,
            s.completed_stories == 0,
            s.started_story_ids@.len() == 0,
    {
        LoopState {
            change_name: change_name.to_owned(),
            running: false,
            current_story_id: None,
            total_stories: 0,
            completed_stories: 0,
            started_story_ids: Vec::new(),
        }
    }
}

} // verus!
