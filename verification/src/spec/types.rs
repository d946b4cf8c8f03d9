//! Domain types for spec abstraction concepts, with their views.

use vstd::prelude::*;

use crate::text::strs;

verus! {


// ============================================================================
// Task hierarchy
// ============================================================================

/// A single actionable task.
#[derive(Debug, Clone, PartialEq, Eq)]
pub struct Task {
    /// Identifier such as "1.2".
    pub id: String,
    /// Description of what needs to be done.
    pub description: String,
    /// Whether the task's checkbox is ticked.
    pub done: bool,
}

/// Abstract value of a [`Task`].
pub struct TaskView {
    pub id: Seq<char>,
    pub description: Seq<char>,
    pub done: bool,
}

impl View for Task {
    type V = TaskView;

    open spec fn view(&self) -> TaskView {
        TaskView { id: self.id@, description: self.description@, done: self.done }
    }
}

/// A story containing related tasks.
#[derive(Debug, Clone, PartialEq, Eq)]
pub struct Story {
    /// Identifier such as "1".
    pub id: String,
    /// Title of the story.
    pub title: String,
    /// Tasks that belong to this story.
    pub tasks: Vec<Task>,
}

/// Abstract value of a [`Story`].
pub struct StoryView {
    pub id: Seq<char>,
    pub title: Seq<char>,
    pub tasks: Seq<TaskView>,
}

/// The views of a sequence of tasks.
pub open spec fn tasks_view(v: Seq<Task>) -> Seq<TaskView> {
    v.map_values(|t: Task| t@)
}

/// The views of a sequence of stories.
pub open spec fn stories_view(v: Seq<Story>) -> Seq<StoryView> {
    v.map_values(|s: Story| s@)
}

impl View for Story {
    type V = StoryView;

    open spec fn view(&self) -> StoryView {
        StoryView { id: self.id@, title: self.title@, tasks: tasks_view(self.tasks@) }
    }
}

/// A story is complete when it has tasks and all of them are done.
pub open spec fn story_complete(s: StoryView) -> bool {
    s.tasks.len() > 0 && forall|i: int| 0 <= i < s.tasks.len() ==> (#[trigger] s.tasks[i]).done
}

impl Task {
    /// A copy of the task.
    pub fn copy(&self) -> (t: Task)
        ensures
            t@ == self@,
    {
        Task { id: self.id.clone(), description: self.description.clone(), done: self.done }
    }
}

/// Copies a run of tasks.
pub fn copy_tasks(v: &[Task]) -> (r: Vec<Task>)
    ensures
        tasks_view(r@) == tasks_view(v@),
{
    let mut r: Vec<Task> = Vec::new();
    let mut i: usize = 0;
    while i < v.len()
        invariant
            i <= v@.len(),
            r@.len() == i,
            tasks_view(r@) == tasks_view(v@.take(i as int)),
        decreases v@.len() - i,
    {
        let ghost prev = r@;
        let t = v[i].copy();
        r.push(t);
        proof {
            assert(v@.take(i + 1) == v@.take(i as int).push(v@[i as int]));
            assert forall|k: int| 0 <= k < r@.len() implies #[trigger] tasks_view(r@)[k] == tasks_view(v@.take(i + 1))[k] by {
                if k < i {
                    assert(tasks_view(prev)[k] == tasks_view(v@.take(i as int))[k]);
                }
            }
            assert(tasks_view(r@) =~= tasks_view(v@.take(i + 1)));
        }
        i += 1;
    }
    assert(v@.take(v@.len() as int) == v@);
    r
}

impl Story {
    /// A copy of the story.
    pub fn copy(&self) -> (s: Story)
        ensures
            s@ == self@,
    {
        Story { id: self.id.clone(), title: self.title.clone(), tasks: copy_tasks(&self.tasks) }
    }
}

/// Copies a run of stories.
pub fn copy_stories(v: &[Story]) -> (r: Vec<Story>)
    ensures
        stories_view(r@) == stories_view(v@),
{
    let mut r: Vec<Story> = Vec::new();
    let mut i: usize = 0;
    while i < v.len()
        invariant
            i <= v@.len(),
            r@.len() == i,
            stories_view(r@) == stories_view(v@.take(i as int)),
        decreases v@.len() - i,
    {
        let ghost prev = r@;
        let s = v[i].copy();
        r.push(s);
        proof {
            assert(v@.take(i + 1) == v@.take(i as int).push(v@[i as int]));
            assert forall|k: int| 0 <= k < r@.len() implies #[trigger] stories_view(r@)[k] == stories_view(v@.take(i + 1))[k] by {
                if k < i {
                    assert(stories_view(prev)[k] == stories_view(v@.take(i as int))[k]);
                }
            }
            assert(stories_view(r@) =~= stories_view(v@.take(i + 1)));
        }
        i += 1;
    }
    assert(v@.take(v@.len() as int) == v@);
    r
}

/// Copies a run of strings.
pub fn copy_strings(v: &[String]) -> (r: Vec<String>)
    ensures
        strs(r@) == strs(v@),
{
    let mut r: Vec<String> = Vec::new();
    let mut i: usize = 0;
    while i < v.len()
        invariant
            i <= v@.len(),
            r@.len() == i,
            strs(r@) == strs(v@.take(i as int)),
        decreases v@.len() - i,
    {
        let ghost prev = r@;
        r.push(v[i].clone());
        proof {
            assert(v@.take(i + 1) == v@.take(i as int).push(v@[i as int]));
            assert forall|k: int| 0 <= k < r@.len() implies #[trigger] strs(r@)[k] == strs(v@.take(i + 1))[k] by {
                if k < i {
                    assert(strs(prev)[k] == strs(v@.take(i as int))[k]);
                }
            }
            assert(strs(r@) =~= strs(v@.take(i + 1)));
        }
        i += 1;
    }
    assert(v@.take(v@.len() as int) == v@);
    r
}

// ============================================================================
// Story types
// ============================================================================

/// Priority level for user stories; ordered so that `High > Medium > Low`.
#[derive(Debug, Clone, Copy, PartialEq, Eq, PartialOrd, Ord)]
pub enum Priority {
    /// Lowest priority - can be deferred.
    Low,
    /// Normal priority.
    Medium,
    /// Highest priority - must be done first.
    High,
}

/// A user story with acceptance criteria and priority.
#[derive(Debug, Clone, PartialEq, Eq)]
pub struct UserStory {
    /// Unique identifier for the story.
    pub id: String,
    /// Title of the story.
    pub title: String,
    /// Detailed description of the story.
    pub description: String,
    /// Acceptance criteria that must be satisfied.
    pub acceptance_criteria: Vec<String>,
    /// Priority level of this story.
    pub priority: Priority,
    /// Whether the story has passed verification.
    pub passed: bool,
}

/// Abstract value of a [`UserStory`].
pub struct UserStoryView {
    pub id: Seq<char>,
    pub title: Seq<char>,
    pub description: Seq<char>,
    pub acceptance_criteria: Seq<Seq<char>>,
    pub priority: Priority,
    pub passed: bool,
}

impl View for UserStory {
    type V = UserStoryView;

    open spec fn view(&self) -> UserStoryView {
        UserStoryView {
            id: self.id@,
            title: self.title@,
            description: self.description@,
            acceptance_criteria: strs(self.acceptance_criteria@),
            priority: self.priority,
            passed: self.passed,
        }
    }
}

/// The views of a sequence of user stories.
pub open spec fn user_stories_view(v: Seq<UserStory>) -> Seq<UserStoryView> {
    v.map_values(|s: UserStory| s@)
}

impl UserStory {
    /// A copy of the user story.
    pub fn copy(&self) -> (s: UserStory)
        ensures
            s@ == self@,
    {
        UserStory {
            id: self.id.clone(),
            title: self.title.clone(),
            description: self.description.clone(),
            acceptance_criteria: copy_strings(&self.acceptance_criteria),
            priority: self.priority,
            passed: self.passed,
        }
    }
}

// ============================================================================
// Verification types
// ============================================================================

/// A verification scenario with Given/When/Then steps.
#[derive(Debug, Clone, PartialEq, Eq)]
pub struct Scenario {
    /// Name of the scenario.
    pub name: String,
    /// Capability (spec folder) the scenario belongs to.
    pub capability: String,
    /// Identifier derived from the enclosing requirement's title.
    pub requirement_id: String,
    /// Preconditions (Given steps).
    pub given: Vec<String>,
    /// Action being taken (When step).
    pub when: String,
    /// Expected outcomes (Then steps).
    pub then_steps: Vec<String>,
}

/// Abstract value of a [`Scenario`].
pub struct ScenarioView {
    pub name: Seq<char>,
    pub capability: Seq<char>,
    pub requirement_id: Seq<char>,
    pub given: Seq<Seq<char>>,
    pub when: Seq<char>,
    pub then_steps: Seq<Seq<char>>,
}

impl View for Scenario {
    type V = ScenarioView;

    open spec fn view(&self) -> ScenarioView {
        ScenarioView {
            name: self.name@,
            capability: self.capability@,
            requirement_id: self.requirement_id@,
            given: strs(self.given@),
            when: self.when@,
            then_steps: strs(self.then_steps@),
        }
    }
}

/// The views of a sequence of scenarios.
pub open spec fn scenarios_view(v: Seq<Scenario>) -> Seq<ScenarioView> {
    v.map_values(|s: Scenario| s@)
}

impl Scenario {
    /// A copy of the scenario.
    pub fn copy(&self) -> (s: Scenario)
        ensures
            s@ == self@,
    {
        Scenario {
            name: self.name.clone(),
            capability: self.capability.clone(),
            requirement_id: self.requirement_id.clone(),
            given: copy_strings(&self.given),
            when: self.when.clone(),
            then_steps: copy_strings(&self.then_steps),
        }
    }
}

/// Copies a run of scenarios.
pub fn copy_scenarios(v: &[Scenario]) -> (r: Vec<Scenario>)
    ensures
        scenarios_view(r@) == scenarios_view(v@),
{
    let mut r: Vec<Scenario> = Vec::new();
    let mut i: usize = 0;
    while i < v.len()
        invariant
            i <= v@.len(),
            r@.len() == i,
            scenarios_view(r@) == scenarios_view(v@.take(i as int)),
        decreases v@.len() - i,
    {
        let ghost prev = r@;
        r.push(v[i].copy());
        proof {
            assert(v@.take(i + 1) == v@.take(i as int).push(v@[i as int]));
            assert forall|k: int| 0 <= k < r@.len() implies #[trigger] scenarios_view(r@)[k] == scenarios_view(v@.take(i + 1))[k] by {
                if k < i {
                    assert(scenarios_view(prev)[k] == scenarios_view(v@.take(i as int))[k]);
                }
            }
            assert(scenarios_view(r@) =~= scenarios_view(v@.take(i + 1)));
        }
        i += 1;
    }
    assert(v@.take(v@.len() as int) == v@);
    r
}

// ============================================================================
// Context types
// ============================================================================

/// Verification commands for a project.
#[derive(Debug, Clone, Default)]
pub struct VerifyCommands {
    /// Static check commands (e.g., cargo check, cargo clippy).
    pub checks: Vec<String>,
    /// Test command.
    pub tests: String,
}

impl VerifyCommands {
    /// A copy of the commands.
    pub fn copy(&self) -> (c: VerifyCommands)
        ensures
            strs(c.checks@) == strs(self.checks@),
            c.tests@ == self.tests@,
    {
        VerifyCommands { checks: copy_strings(&self.checks), tests: self.tests.clone() }
    }
}

/// Complete context for working on a story.
#[derive(Debug, Clone)]
pub struct Context {
    /// The story.
    pub story: Story,
    /// Proposal content.
    pub proposal: String,
    /// Design content.
    pub design: String,
    /// All scenarios of the change.
    pub scenarios: Vec<Scenario>,
    /// Verification commands.
    pub verify: VerifyCommands,
}

/// Abstract value of a [`Context`].
pub struct ContextView {
    pub story: StoryView,
    pub proposal: Seq<char>,
    pub design: Seq<char>,
    pub scenarios: Seq<ScenarioView>,
    pub checks: Seq<Seq<char>>,
    pub tests: Seq<char>,
}

impl View for Context {
    type V = ContextView;

    open spec fn view(&self) -> ContextView {
        ContextView {
            story: self.story@,
            proposal: self.proposal@,
            design: self.design@,
            scenarios: scenarios_view(self.scenarios@),
            checks: strs(self.verify.checks@),
            tests: self.verify.tests@,
        }
    }
}

/// A learning captured during task execution.
#[derive(Debug, Clone)]
pub struct Learning {
    /// Description of what was learned.
    pub description: String,
    /// Optional reference to the task this learning relates to.
    pub task_id: Option<String>,
    /// Story ID when this learning was recorded.
    pub story_id: Option<String>,
}

/// A reusable pattern discovered in the codebase.
#[derive(Debug, Clone)]
pub struct Pattern {
    /// Name identifying the pattern.
    pub name: String,
    /// Description of the pattern and how to use it.
    pub description: String,
}

/// Complete context needed by an agent to work on a story.
#[derive(Debug, Clone)]
pub struct WorkContext {
    /// Current story information.
    pub story: Story,
    /// All tasks in the current story.
    pub tasks: Vec<Task>,
    /// Proposal content.
    pub proposal: String,
    /// Design content.
    pub design: String,
    /// Scenarios relevant to this story.
    pub scenarios: Vec<Scenario>,
    /// Verification commands.
    pub verify: VerifyCommands,
}

/// Status of work in progress.
#[derive(Debug, Clone)]
pub struct WorkStatus {
    /// Current story ID.
    pub story_id: String,
    /// Tasks done in current story.
    pub story_tasks_done: usize,
    /// Total tasks in current story.
    pub story_tasks_total: usize,
    /// Stories done in current change.
    pub change_stories_done: usize,
    /// Total stories in current change.
    pub change_stories_total: usize,
}

} // verus!
