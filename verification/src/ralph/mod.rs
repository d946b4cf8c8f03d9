//! Ralph abstraction layer: workflow concepts (tasks, user stories,
//! verification scenarios, progress) that spec system adapters provide.

pub mod openspec;
pub mod traits;
pub mod types;

pub use traits::{ProgressTracker, StoryProvider, TaskSource, VerificationSource};
pub use types::{Learning, Pattern, Priority, Scenario, Story, Task, UserStory};
