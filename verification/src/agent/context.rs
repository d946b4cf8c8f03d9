//! Context of the current story for a coding agent: the story and its
//! tasks, the proposal and design, the scenarios, the session's learnings
//! and the verification commands.

use vstd::prelude::*;

use crate::agent::session::SessionLearning;
use crate::ralph::types::{ralph_scenarios_view, ralph_stories_view, Scenario, Story};
use crate::spec::openspec::{find_story, infer_verify_commands, verify_commands_for, PendingView, ProjectMarkers};
use crate::spec::types::{copy_strings, TaskView};
use crate::text::{str_eq, strs};

verus! {

/// Response from the context command.
#[derive(Debug, Clone)]
pub struct ContextResponse {
    /// Current story information.
    pub story: StoryContext,
    /// All tasks in the current story.
    pub tasks: Vec<TaskContext>,
    /// Proposal content.
    pub proposal: String,
    /// Design content.
    pub design: String,
    /// Scenarios of the change.
    pub scenarios: Vec<ScenarioContext>,
    /// Learnings from previous iterations.
    pub learnings: Vec<LearningContext>,
    /// Codebase patterns.
    pub patterns: Vec<String>,
    /// Verification commands.
    pub verify: VerifyCommands,
}

/// Story context information.
#[derive(Debug, Clone)]
pub struct StoryContext {
    pub id: String,
    pub title: String,
    pub description: String,
}

/// Task context information.
#[derive(Debug, Clone)]
pub struct TaskContext {
    pub id: String,
    pub description: String,
    pub complete: bool,
}

/// Scenario context information.
#[derive(Debug, Clone)]
pub struct ScenarioContext {
    pub name: String,
    pub given: Vec<String>,
    pub when: String,
    pub then_steps: Vec<String>,
}

/// Learning context information.
#[derive(Debug, Clone)]
pub struct LearningContext {
    pub description: String,
    pub task_id: Option<String>,
    pub timestamp: String,
}

/// Verification commands.
#[derive(Debug, Clone)]
pub struct VerifyCommands {
    /// Static check commands (e.g., cargo check, cargo clippy).
    pub checks: Vec<String>,
    /// Test command pattern.
    pub tests: String,
}

/// The view of a task context.
pub open spec fn task_context_view(t: TaskContext) -> TaskView {
    TaskView { id: t.id@, description: t.description@, done: t.complete }
}

/// The view of a scenario context.
pub open spec fn scenario_context_view(s: ScenarioContext) -> PendingView {
    PendingView { name: s.name@, given: strs(s.given@), when: s.when@, then_steps: strs(s.then_steps@) }
}

/// The view of a learning context: description, task and timestamp.
pub open spec fn learning_context_view(l: LearningContext) -> (Seq<char>, Option<String>, Seq<char>) {
    (l.description@, l.task_id, l.timestamp@)
}

/// The learning context of a session learning.
pub open spec fn learning_of(l: SessionLearning) -> (Seq<char>, Option<String>, Seq<char>) {
    (l.description@, l.task_id, l.timestamp@)
}

/// Infers verification commands from the project type.
pub fn agent_verify_commands(m: ProjectMarkers) -> (c: VerifyCommands)
    ensures
        (strs(c.checks@), c.tests@) == verify_commands_for(m),
{
    let v = infer_verify_commands(m);
    VerifyCommands { checks: v.checks, tests: v.tests }
}

/// The scenario context of a scenario.
pub fn scenario_context(s: &Scenario) -> (c: ScenarioContext)
    ensures
        scenario_context_view(c) == s@,
{
    ScenarioContext {
        name: s.name.clone(),
        given: copy_strings(&s.given),
        when: s.when.clone(),
        then_steps: copy_strings(&s.then_steps),
    }
}

/// The scenario contexts of scenarios, in order.
pub fn scenario_contexts(scenarios: &Vec<Scenario>) -> (r: Vec<ScenarioContext>)
    ensures
        r@.len() == scenarios@.len(),
        forall|k: int| 0 <= k < r@.len() ==> scenario_context_view(#[trigger] r@[k]) == scenarios@[k]@,
{
    let mut r: Vec<ScenarioContext> = Vec::new();
    let mut i: usize = 0;
    while i < scenarios.len()
        invariant
            i <= scenarios@.len(),
            r@.len() == i,
            forall|k: int| 0 <= k < i ==> scenario_context_view(#[trigger] r@[k]) == scenarios@[k]@,
        decreases scenarios@.len() - i,
    {
        r.push(scenario_context(&scenarios[i]));
        i += 1;
    }
    r
}

/// Builds the context of the current story: the first story with its id
/// (its description stays empty, as stories from `tasks.md` have none),
/// its tasks, the proposal and design, all scenarios, the session's
/// learnings, no patterns, and the verification commands.
pub fn build_context(
    stories: &Vec<Story>,
    story_id: &str,
    proposal: String,
    design: String,
    scenarios: &Vec<Scenario>,
    learnings: &Vec<SessionLearning>,
    verify: VerifyCommands,
) -> (r: Result<ContextResponse, String>)
    ensures
        match find_story(ralph_stories_view(stories@), story_id@) {
            Some(i) => r matches Ok(c) && {
                let s = ralph_stories_view(stories@)[i];
                &&& c.story.id@ == s.id
                &&& c.story.title@ == s.title
                &&& c.story.description@.len() == 0
                &&& c.tasks@.len() == s.tasks.len()
                &&& forall|k: int| 0 <= k < c.tasks@.len() ==> task_context_view(#[trigger] c.tasks@[k]) == s.tasks[k]
                &&& c.proposal@ == proposal@
                &&& c.design@ == design@
                &&& c.scenarios@.len() == scenarios@.len()
                &&& forall|k: int| 0 <= k < c.scenarios@.len() ==> scenario_context_view(#[trigger] c.scenarios@[k]) == scenarios@[k]@
                &&& c.learnings@.len() == learnings@.len()
                &&& forall|k: int| 0 <= k < c.learnings@.len() ==> learning_context_view(#[trigger] c.learnings@[k]) == learning_of(learnings@[k])
                &&& c.patterns@.len() == 0
                &&& strs(c.verify.checks@) == strs(verify.checks@)
                &&& c.verify.tests@ == verify.tests@
            },
            None => r matches Err(m) && m@ == crate::agent::tasks::story_missing_text(story_id@),
        },
{
    let ghost sv = ralph_stories_view(stories@);
    let idx = match crate::agent::tasks::find_story_index(stories, story_id) {
        Some(i) => i,
        None => return Err(crate::agent::tasks::story_missing_message(story_id)),
    };
    let s = &stories[idx];
    assert(sv[idx as int] == s@);
    let mut tasks: Vec<TaskContext> = Vec::new();
    let mut j: usize = 0;
    while j < s.tasks.len()
        invariant
            j <= s.tasks@.len(),
            tasks@.len() == j,
            forall|k: int| 0 <= k < j ==> task_context_view(#[trigger] tasks@[k]) == s@.tasks[k],
        decreases s.tasks@.len() - j,
    {
        let t = &s.tasks[j];
        assert(s@.tasks[j as int] == t@);
        tasks.push(TaskContext { id: t.id.clone(), description: t.description.clone(), complete: t.complete });
        j += 1;
    }
    let mut ls: Vec<LearningContext> = Vec::new();
    let mut k: usize = 0;
    while k < learnings.len()
        invariant
            k <= learnings@.len(),
            ls@.len() == k,
            forall|m: int| 0 <= m < k ==> learning_context_view(#[trigger] ls@[m]) == learning_of(learnings@[m]),
        decreases learnings@.len() - k,
    {
        let l = &learnings[k];
        ls.push(
            LearningContext {
                description: l.description.clone(),
                task_id: l.task_id.clone(),
                timestamp: l.timestamp.clone(),
            },
        );
        k += 1;
    }
    Ok(
        ContextResponse {
            story: StoryContext { id: s.id.clone(), title: s.title.clone(), description: String::new() },
            tasks,
            proposal,
            design,
            scenarios: scenario_contexts(scenarios),
            learnings: ls,
            patterns: Vec::new(),
            verify: VerifyCommands { checks: copy_strings(&verify.checks), tests: verify.tests },
        },
    )
}

} // verus!
