//! Task completion within the current story: which tasks an agent may
//! mark, what remains afterwards, and the progress status.

use vstd::prelude::*;

use crate::agent::session::done_count;
use crate::ralph::types::{ralph_stories_view, ralph_tasks_view, Story, Task};
use crate::spec::openspec::find_story;
use crate::spec::types::{StoryView, TaskView, WorkStatus};
use crate::text::{add_line, chars_of, concat2, push_str, starts_with, starts_with_chars, str_eq, strs};

verus! {

/// Response from the task done command.
#[derive(Debug, Clone)]
pub struct TaskDoneResponse {
    pub success: bool,
    pub task_id: String,
    pub remaining: Vec<String>,
    pub story_complete: bool,
}

/// Response from the status command.
#[derive(Debug, Clone)]
pub struct StatusResponse {
    pub story: StoryStatus,
    pub change: ChangeStatus,
    pub story_complete: bool,
    pub change_complete: bool,
}

/// Story-level status.
#[derive(Debug, Clone)]
pub struct StoryStatus {
    pub id: String,
    pub tasks_done: usize,
    pub tasks_total: usize,
}

/// Change-level status.
#[derive(Debug, Clone)]
pub struct ChangeStatus {
    pub stories_done: usize,
    pub stories_total: usize,
}

/// Whether a task belongs to a story: its id starts with the story's id
/// and a dot.
pub open spec fn in_scope(task_id: Seq<char>, story_id: Seq<char>) -> bool {
    starts_with(task_id, story_id + "."@)
}

/// Whether the task belongs to the current story.
pub fn task_in_story_scope(task_id: &str, story_id: &str) -> (b: bool)
    ensures
        b == in_scope(task_id@, story_id@),
{
    let prefix = concat2(story_id, ".");
    let t = chars_of(task_id);
    let p = chars_of(prefix.as_str());
    starts_with_chars(&t, &p)
}

/// The message with which marking a task outside the current story is
/// refused.
pub open spec fn scope_error_text(task_id: Seq<char>, story_id: Seq<char>) -> Seq<char> {
    "Task '"@ + task_id + "' is not in the current story scope (Story "@ + story_id
        + ").\nYou can only mark tasks from the current story as complete."@
}

/// Builds the message with which marking a task outside the current story
/// is refused.
pub fn scope_error_message(task_id: &str, story_id: &str) -> (m: String)
    ensures
        m@ == scope_error_text(task_id@, story_id@),
{
    let mut m = concat2("Task '", task_id);
    push_str(&mut m, "' is not in the current story scope (Story ");
    push_str(&mut m, story_id);
    push_str(&mut m, ").\nYou can only mark tasks from the current story as complete.");
    m
}

/// The message with which a story id that names no story is refused.
pub open spec fn story_missing_text(story_id: Seq<char>) -> Seq<char> {
    "Story '"@ + story_id + "' not found"@
}

/// Builds the message with which a story id that names no story is refused.
pub fn story_missing_message(story_id: &str) -> (m: String)
    ensures
        m@ == story_missing_text(story_id@),
{
    let mut m = concat2("Story '", story_id);
    push_str(&mut m, "' not found");
    m
}

/// The ids of the tasks that are not complete, in order.
pub open spec fn open_task_ids(tasks: Seq<TaskView>) -> Seq<Seq<char>>
    decreases tasks.len(),
{
    if tasks.len() == 0 {
        Seq::empty()
    } else {
        let prev = open_task_ids(tasks.drop_last());
        if tasks.last().done {
            prev
        } else {
            prev.push(tasks.last().id)
        }
    }
}

/// The remaining tasks of a story are exactly its open ones: the ids of the
/// tasks that are not done, all of them and in their order, and no other.
pub proof fn law_remaining_are_the_open_tasks(tasks: Seq<TaskView>)
    ensures
        open_task_ids(tasks) == tasks.filter(|t: TaskView| !t.done).map_values(|t: TaskView| t.id),
    decreases tasks.len(),
{
    reveal(Seq::filter);
    if tasks.len() > 0 {
        law_remaining_are_the_open_tasks(tasks.drop_last());
        let f = tasks.drop_last().filter(|t: TaskView| !t.done);
        if !tasks.last().done {
            assert(f.push(tasks.last()).map_values(|t: TaskView| t.id) =~= f.map_values(
                |t: TaskView| t.id,
            ).push(tasks.last().id));
        }
    }
}

/// The ids of the tasks that are not complete.
pub fn remaining_task_ids(tasks: &Vec<Task>) -> (r: Vec<String>)
    ensures
        strs(r@) == open_task_ids(ralph_tasks_view(tasks@)),
{
    let mut r: Vec<String> = Vec::new();
    let mut i: usize = 0;
    while i < tasks.len()
        invariant
            i <= tasks@.len(),
            strs(r@) == open_task_ids(ralph_tasks_view(tasks@).take(i as int)),
        decreases tasks@.len() - i,
    {
        assert(ralph_tasks_view(tasks@).take(i + 1).drop_last() =~= ralph_tasks_view(tasks@).take(
            i as int,
        ));
        if !tasks[i].complete {
            add_line(&mut r, tasks[i].id.as_str());
        }
        i += 1;
    }
    assert(ralph_tasks_view(tasks@).take(tasks@.len() as int) == ralph_tasks_view(tasks@));
    r
}

/// Index of the first story with the given id.
pub fn find_story_index(stories: &Vec<Story>, story_id: &str) -> (r: Option<usize>)
    ensures
        match r {
            Some(i) => find_story(ralph_stories_view(stories@), story_id@) == Some(i as int) && i
                < stories@.len(),
            None => find_story(ralph_stories_view(stories@), story_id@) is None,
        },
{
    let ghost sv = ralph_stories_view(stories@);
    let mut i: usize = 0;
    while i < stories.len()
        invariant
            i <= stories@.len(),
            sv == ralph_stories_view(stories@),
            find_story(sv.take(i as int), story_id@) is None,
        decreases stories@.len() - i,
    {
        assert(sv.take(i + 1).drop_last() =~= sv.take(i as int));
        if str_eq(stories[i].id.as_str(), story_id) {
            proof {
                crate::ralph_loop::orchestrator::lemma_find_story_range(sv, story_id@);
                lemma_prefix_match(sv, story_id@, i + 1);
            }
            return Some(i);
        }
        i += 1;
    }
    assert(sv.take(stories@.len() as int) == sv);
    None
}

pub(crate) proof fn lemma_prefix_match(s: Seq<StoryView>, id: Seq<char>, n: int)
    requires
        0 <= n <= s.len(),
        find_story(s.take(n), id) is Some,
    ensures
        find_story(s, id) == find_story(s.take(n), id),
    decreases s.len() - n,
{
    if n == s.len() {
        assert(s.take(n) == s);
    } else {
        assert(s.take(n + 1).drop_last() == s.take(n));
        lemma_prefix_match(s, id, n + 1);
    }
}

/// The response after marking a task of the current story complete: the
/// tasks of the story (the first with its id) that remain open, and whether
/// none does.
pub fn task_done_response(task_id: &str, story_id: &str, stories: &Vec<Story>) -> (r: Result<
    TaskDoneResponse,
    String,
>)
    ensures
        match find_story(ralph_stories_view(stories@), story_id@) {
            Some(i) => r matches Ok(resp) && resp.success && resp.task_id@ == task_id@ && strs(
                resp.remaining@,
            ) == open_task_ids(ralph_stories_view(stories@)[i].tasks) && resp.story_complete == (
            open_task_ids(ralph_stories_view(stories@)[i].tasks).len() == 0),
            None => r matches Err(m) && m@ == story_missing_text(story_id@),
        },
{
    match find_story_index(stories, story_id) {
        Some(i) => {
            assert(ralph_stories_view(stories@)[i as int] == stories@[i as int]@);
            let remaining = remaining_task_ids(&stories[i].tasks);
            let story_complete = remaining.len() == 0;
            Ok(TaskDoneResponse { success: true, task_id: task_id.to_owned(), remaining, story_complete })
        },
        None => Err(story_missing_message(story_id)),
    }
}

/// The status of the current story (by id, when one is given; else the
/// adapter's work status) and of the change. A story is complete when all
/// of its tasks, and at least one, are done; so is a change with its
/// stories.
pub fn status_response(story_id: Option<&str>, stories: &Vec<Story>, work: &WorkStatus) -> (r:
    StatusResponse)
    ensures
        r.change.stories_done == work.change_stories_done,
        r.change.stories_total == work.change_stories_total,
        r.change_complete == (work.change_stories_done == work.change_stories_total
            && work.change_stories_total > 0),
        match story_id {
            Some(sid) => match find_story(ralph_stories_view(stories@), sid@) {
                Some(i) => {
                    let s = ralph_stories_view(stories@)[i];
                    &&& r.story.id@ == s.id
                    &&& r.story.tasks_done == done_count(s.tasks)
                    &&& r.story.tasks_total == s.tasks.len()
                    &&& r.story_complete == (done_count(s.tasks) == s.tasks.len() && s.tasks.len() > 0)
                },
                None => r.story.id@ == sid@ && r.story.tasks_done == 0 && r.story.tasks_total == 0
                    && !r.story_complete,
            },
            None => if work.story_id@.len() > 0 {
                &&& r.story.id@ == work.story_id@
                &&& r.story.tasks_done == work.story_tasks_done
                &&& r.story.tasks_total == work.story_tasks_total
                &&& r.story_complete == (work.story_tasks_done == work.story_tasks_total
                    && work.story_tasks_total > 0)
            } else {
                r.story.id@.len() == 0 && r.story.tasks_done == 0 && r.story.tasks_total == 0
                    && !r.story_complete
            },
        },
{
    let (story, story_complete) = match story_id {
        Some(sid) => match find_story_index(stories, sid) {
            Some(i) => {
                let s = &stories[i];
                assert(ralph_stories_view(stories@)[i as int] == s@);
                let tasks_done = crate::agent::session::count_done(&s.tasks);
                let tasks_total = s.tasks.len();
                let complete = tasks_done == tasks_total && tasks_total > 0;
                (StoryStatus { id: s.id.clone(), tasks_done, tasks_total }, complete)
            },
            None => (StoryStatus { id: sid.to_owned(), tasks_done: 0, tasks_total: 0 }, false),
        },
        None => if !work.story_id.as_str().is_empty() {
            let complete = work.story_tasks_done == work.story_tasks_total && work.story_tasks_total
                > 0;
            (
                StoryStatus {
                    id: work.story_id.clone(),
                    tasks_done: work.story_tasks_done,
                    tasks_total: work.story_tasks_total,
                },
                complete,
            )
        } else {
            (StoryStatus { id: String::new(), tasks_done: 0, tasks_total: 0 }, false)
        },
    };
    let change_complete = work.change_stories_done == work.change_stories_total
        && work.change_stories_total > 0;
    StatusResponse {
        story,
        change: ChangeStatus {
            stories_done: work.change_stories_done,
            stories_total: work.change_stories_total,
        },
        story_complete,
        change_complete,
    }
}

} // verus!
