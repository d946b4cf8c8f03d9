//! Traits through which adapters provide task, story, verification and
//! progress data from their spec systems.

use vstd::prelude::*;

use crate::ralph::types::{Learning, Pattern, Scenario, Story, Task, UserStory};

verus! {

/// Provides task data in hierarchical form (Story > Task).
pub trait TaskSource {
    /// The error type returned by this adapter.
    type Error;

    /// Returns all tasks in hierarchical form (Story > Task).
    fn list_tasks(&self) -> Result<Vec<Story>, Self::Error>;

    /// Returns the next incomplete task in order, or `None` if all tasks
    /// are complete.
    fn next_task(&self) -> Result<Option<Task>, Self::Error>;

    /// Marks a task as complete in the source system.
    fn mark_complete(&mut self, task_id: &str) -> Result<(), Self::Error>;
}

/// Records learnings and patterns back to the source system.
pub trait ProgressTracker {
    /// The error type returned by this adapter.
    type Error;

    /// Records a learning to the source system.
    fn record_learning(&mut self, learning: Learning) -> Result<(), Self::Error>;

    /// Records a pattern to the source system.
    fn record_pattern(&mut self, pattern: Pattern) -> Result<(), Self::Error>;

    /// Returns all recorded patterns from the source system.
    fn list_patterns(&self) -> Result<Vec<Pattern>, Self::Error>;
}

/// Provides user stories with their acceptance criteria and priority.
pub trait StoryProvider {
    /// The error type returned by this adapter.
    type Error;

    /// Returns all user stories with their metadata.
    fn list_stories(&self) -> Result<Vec<UserStory>, Self::Error>;

    /// Returns the first story that hasn't passed verification, or `None`
    /// if all stories have passed.
    fn next_story(&self) -> Result<Option<UserStory>, Self::Error>;

    /// Marks a story as passed in the source system.
    fn mark_passed(&mut self, story_id: &str) -> Result<(), Self::Error>;
}

/// Provides Given/When/Then scenarios for story verification.
pub trait VerificationSource {
    /// The error type returned by this adapter.
    type Error;

    /// Returns all verification scenarios associated with a story.
    fn scenarios_for(&self, story_id: &str) -> Result<Vec<Scenario>, Self::Error>;

    /// Returns all verification scenarios from the source system.
    fn list_scenarios(&self) -> Result<Vec<Scenario>, Self::Error>;
}

} // verus!
