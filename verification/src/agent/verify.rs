//! Context and control for a verification agent that checks the
//! implementation against the specifications.

use vstd::prelude::*;

use crate::agent::context::{scenario_contexts, scenario_context_view, ScenarioContext, VerifyCommands};
use crate::ralph::types::{ralph_stories_view, ralph_tasks_view, Scenario, Story, Task};
use crate::spec::types::{copy_strings, user_stories_view, StoryView, TaskView, UserStory, UserStoryView};
use crate::text::strs;

verus! {

/// Response from the verify context command.
#[derive(Debug, Clone)]
pub struct VerifyContextResponse {
    /// All user stories/requirements from specs.
    pub user_stories: Vec<UserStoryContext>,
    /// All scenarios from specs.
    pub scenarios: Vec<ScenarioContext>,
    /// Completed tasks of the change.
    pub completed_tasks: Vec<CompletedTaskContext>,
    /// Proposal content.
    pub proposal: String,
    /// Design content.
    pub design: String,
    /// Verification commands.
    pub verify: VerifyCommands,
}

/// User story context for verification.
#[derive(Debug, Clone)]
pub struct UserStoryContext {
    pub id: String,
    pub title: String,
    pub description: String,
    pub acceptance_criteria: Vec<String>,
    pub passed: bool,
}

/// Completed task context.
#[derive(Debug, Clone)]
pub struct CompletedTaskContext {
    pub id: String,
    pub description: String,
}

/// Response from the verify pass command.
#[derive(Debug, Clone)]
pub struct VerifyPassResponse {
    pub success: bool,
    pub story_id: String,
}

/// Whether a user story context shows a user story (all but its priority).
pub open spec fn shows_user_story(c: UserStoryContext, u: UserStoryView) -> bool {
    &&& c.id@ == u.id
    &&& c.title@ == u.title
    &&& c.description@ == u.description
    &&& strs(c.acceptance_criteria@) == u.acceptance_criteria
    &&& c.passed == u.passed
}

/// The tasks among `tasks` completed in the session, that is whose id is
/// among the session's completed task ids `done`, in order.
pub open spec fn session_tasks(tasks: Seq<TaskView>, done: Seq<Seq<char>>) -> Seq<TaskView>
    decreases tasks.len(),
{
    if tasks.len() == 0 {
        Seq::empty()
    } else {
        let prev = session_tasks(tasks.drop_last(), done);
        if done.contains(tasks.last().id) {
            prev.push(tasks.last())
        } else {
            prev
        }
    }
}

/// The tasks of all stories completed in the session, story by story.
pub open spec fn all_session_tasks(stories: Seq<StoryView>, done: Seq<Seq<char>>) -> Seq<TaskView>
    decreases stories.len(),
{
    if stories.len() == 0 {
        Seq::empty()
    } else {
        all_session_tasks(stories.drop_last(), done) + session_tasks(stories.last().tasks, done)
    }
}

/// Whether `ids` holds `id`.
fn holds_id(ids: &Vec<String>, id: &str) -> (b: bool)
    ensures
        b == strs(ids@).contains(id@),
{
    let mut i: usize = 0;
    while i < ids.len()
        invariant
            i <= ids@.len(),
            forall|k: int| 0 <= k < i ==> strs(ids@)[k] != id@,
        decreases ids@.len() - i,
    {
        if crate::text::str_eq(ids[i].as_str(), id) {
            assert(strs(ids@)[i as int] == id@);
            return true;
        }
        i += 1;
    }
    false
}

/// The id and description of a completed task context.
pub open spec fn completed_view(c: CompletedTaskContext) -> (Seq<char>, Seq<char>) {
    (c.id@, c.description@)
}

/// The id and description of a task.
pub open spec fn task_summary(t: TaskView) -> (Seq<char>, Seq<char>) {
    (t.id, t.description)
}

/// The contexts of user stories, in order.
pub fn user_story_contexts(stories: &Vec<UserStory>) -> (r: Vec<UserStoryContext>)
    ensures
        r@.len() == stories@.len(),
        forall|k: int| 0 <= k < r@.len() ==> shows_user_story(#[trigger] r@[k], stories@[k]@),
{
    let mut r: Vec<UserStoryContext> = Vec::new();
    let mut i: usize = 0;
    while i < stories.len()
        invariant
            i <= stories@.len(),
            r@.len() == i,
            forall|k: int| 0 <= k < i ==> shows_user_story(#[trigger] r@[k], stories@[k]@),
        decreases stories@.len() - i,
    {
        let u = &stories[i];
        r.push(
            UserStoryContext {
                id: u.id.clone(),
                title: u.title.clone(),
                description: u.description.clone(),
                acceptance_criteria: copy_strings(&u.acceptance_criteria),
                passed: u.passed,
            },
        );
        i += 1;
    }
    r
}

fn push_done_tasks(out: &mut Vec<CompletedTaskContext>, tasks: &Vec<Task>, done: &Vec<String>)
    ensures
        final(out)@.map_values(|c: CompletedTaskContext| completed_view(c)) == old(out)@.map_values(
            |c: CompletedTaskContext| completed_view(c),
        ) + session_tasks(ralph_tasks_view(tasks@), strs(done@)).map_values(|t: TaskView| task_summary(t)),
{
    let ghost start = out@.map_values(|c: CompletedTaskContext| completed_view(c));
    let mut j: usize = 0;
    while j < tasks.len()
        invariant
            j <= tasks@.len(),
            out@.map_values(|c: CompletedTaskContext| completed_view(c)) == start + session_tasks(
                ralph_tasks_view(tasks@).take(j as int),
                strs(done@),
            ).map_values(|t: TaskView| task_summary(t)),
        decreases tasks@.len() - j,
    {
        let ghost prev = out@;
        assert(ralph_tasks_view(tasks@).take(j + 1).drop_last() =~= ralph_tasks_view(tasks@).take(
            j as int,
        ));
        assert(ralph_tasks_view(tasks@).take(j + 1).last() == tasks@[j as int]@);
        let t = &tasks[j];
        if holds_id(done, t.id.as_str()) {
            let c = CompletedTaskContext { id: t.id.clone(), description: t.description.clone() };
            out.push(c);
            assert(out@.map_values(|c: CompletedTaskContext| completed_view(c)) =~= prev.map_values(
                |c: CompletedTaskContext| completed_view(c),
            ).push(completed_view(c)));
        }
        j += 1;
    }
    assert(ralph_tasks_view(tasks@).take(tasks@.len() as int) == ralph_tasks_view(tasks@));
}

/// The tasks completed in the current session, whose ids the session
/// recorded in `done`, as id and description, story by story in
/// `tasks.md` order.
pub fn completed_tasks(stories: &Vec<Story>, done: &Vec<String>) -> (r: Vec<CompletedTaskContext>)
    ensures
        r@.map_values(|c: CompletedTaskContext| completed_view(c)) == all_session_tasks(
            ralph_stories_view(stories@),
            strs(done@),
        ).map_values(|t: TaskView| task_summary(t)),
{
    let mut r: Vec<CompletedTaskContext> = Vec::new();
    let mut i: usize = 0;
    assert(r@.map_values(|c: CompletedTaskContext| completed_view(c)) =~= Seq::<(Seq<char>, Seq<char>)>::empty());
    while i < stories.len()
        invariant
            i <= stories@.len(),
            r@.map_values(|c: CompletedTaskContext| completed_view(c)) == all_session_tasks(
                ralph_stories_view(stories@).take(i as int),
                strs(done@),
            ).map_values(|t: TaskView| task_summary(t)),
        decreases stories@.len() - i,
    {
        push_done_tasks(&mut r, &stories[i].tasks, done);
        assert(ralph_stories_view(stories@).take(i + 1).drop_last() =~= ralph_stories_view(stories@).take(
            i as int,
        ));
        assert(ralph_stories_view(stories@).take(i + 1).last() == stories@[i as int]@);
        assert(all_session_tasks(ralph_stories_view(stories@).take(i + 1), strs(done@)).map_values(
            |t: TaskView| task_summary(t),
        ) =~= all_session_tasks(ralph_stories_view(stories@).take(i as int), strs(done@)).map_values(
            |t: TaskView| task_summary(t),
        ) + session_tasks(ralph_tasks_view(stories@[i as int].tasks@), strs(done@)).map_values(
            |t: TaskView| task_summary(t),
        ));
        i += 1;
    }
    assert(ralph_stories_view(stories@).take(stories@.len() as int) == ralph_stories_view(stories@));
    r
}

/// Builds the context of the verification agent: all user stories and
/// scenarios, the tasks completed in the current session (whose ids the
/// session recorded in `session_done`), the proposal and design, and the
/// verification commands.
pub fn verify_context(
    user_stories: &Vec<UserStory>,
    scenarios: &Vec<Scenario>,
    stories: &Vec<Story>,
    session_done: &Vec<String>,
    proposal: String,
    design: String,
    verify: VerifyCommands,
) -> (r: VerifyContextResponse)
    ensures
        r.user_stories@.len() == user_stories@.len(),
        forall|k: int|
            0 <= k < r.user_stories@.len() ==> shows_user_story(#[trigger] r.user_stories@[k], user_stories@[k]@),
        r.scenarios@.len() == scenarios@.len(),
        forall|k: int|
            0 <= k < r.scenarios@.len() ==> scenario_context_view(#[trigger] r.scenarios@[k]) == scenarios@[k]@,
        r.completed_tasks@.map_values(|c: CompletedTaskContext| completed_view(c)) == all_session_tasks(
            ralph_stories_view(stories@),
            strs(session_done@),
        ).map_values(|t: TaskView| task_summary(t)),
        r.proposal@ == proposal@,
        r.design@ == design@,
        strs(r.verify.checks@) == strs(verify.checks@),
        r.verify.tests@ == verify.tests@,
{
    VerifyContextResponse {
        user_stories: user_story_contexts(user_stories),
        scenarios: scenario_contexts(scenarios),
        completed_tasks: completed_tasks(stories, session_done),
        proposal,
        design,
        verify: VerifyCommands { checks: copy_strings(&verify.checks), tests: verify.tests },
    }
}

/// The response after the current story passed verification.
pub fn verify_pass_response(story_id: String) -> (r: VerifyPassResponse)
    ensures
        r.success,
        r.story_id@ == story_id@,
{
    VerifyPassResponse { success: true, story_id }
}

} // verus!
