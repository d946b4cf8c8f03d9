//! Domain types of the Ralph workflow, with their views.

use vstd::prelude::*;

use crate::spec::openspec::PendingView;
use crate::spec::types::{StoryView, TaskView};
use crate::text::strs;

pub use crate::spec::types::{Learning, Pattern, Priority, UserStory};

verus! {

/// A single actionable task within the Ralph workflow.
#[derive(Debug, Clone, PartialEq, Eq)]
pub struct Task {
    /// Unique identifier for the task.
    pub id: String,
    /// Description of what needs to be done.
    pub description: String,
    /// Whether the task has been completed.
    pub complete: bool,
}

impl View for Task {
    type V = TaskView;

    open spec fn view(&self) -> TaskView {
        TaskView { id: self.id@, description: self.description@, done: self.complete }
    }
}

/// A story containing related tasks.
#[derive(Debug, Clone, PartialEq, Eq)]
pub struct Story {
    /// Unique identifier for the story.
    pub id: String,
    /// Title of the story.
    pub title: String,
    /// Tasks that belong to this story.
    pub tasks: Vec<Task>,
}

/// The views of a sequence of tasks.
pub open spec fn ralph_tasks_view(v: Seq<Task>) -> Seq<TaskView> {
    v.map_values(|t: Task| t@)
}

/// The views of a sequence of stories.
pub open spec fn ralph_stories_view(v: Seq<Story>) -> Seq<StoryView> {
    v.map_values(|s: Story| s@)
}

impl View for Story {
    type V = StoryView;

    open spec fn view(&self) -> StoryView {
        StoryView { id: self.id@, title: self.title@, tasks: ralph_tasks_view(self.tasks@) }
    }
}

/// A verification scenario with Given/When/Then steps.
#[derive(Debug, Clone, PartialEq, Eq)]
pub struct Scenario {
    /// Name of the scenario.
    pub name: String,
    /// Preconditions (Given steps).
    pub given: Vec<String>,
    /// Action being taken (When step).
    pub when: String,
    /// Expected outcomes (Then steps).
    pub then_steps: Vec<String>,
}

impl View for Scenario {
    type V = PendingView;

    open spec fn view(&self) -> PendingView {
        PendingView {
            name: self.name@,
            given: strs(self.given@),
            when: self.when@,
            then_steps: strs(self.then_steps@),
        }
    }
}

/// The views of a sequence of scenarios.
pub open spec fn ralph_scenarios_view(v: Seq<Scenario>) -> Seq<PendingView> {
    v.map_values(|s: Scenario| s@)
}

} // verus!
