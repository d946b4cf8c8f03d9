//! Data of the result screen: a summary of the work of the loop, the
//! stories with their tasks, and the files that changed.

use vstd::prelude::*;

use crate::agent::session::done_count;
use crate::ralph_loop::orchestrator::{completed_count, count_complete};
use crate::spec::types::{copy_stories, stories_view, Story, StoryView};
use crate::text::{chars_of, lines, lines_of, string_of, views, strs};

verus! {

/// Result data for display.
#[derive(Debug, Clone, Default)]
pub struct LoopResult {
    /// Name of the change that was processed.
    pub change_name: String,
    /// Number of stories completed.
    pub stories_completed: usize,
    /// Total number of stories.
    pub stories_total: usize,
    /// Number of tasks completed.
    pub tasks_completed: usize,
    /// Total number of tasks.
    pub tasks_total: usize,
    /// Files that were changed during the loop.
    pub changed_files: Vec<String>,
    /// Stories with tasks for display in the Tasks tab.
    pub stories: Vec<Story>,
}

/// The number of tasks of all stories.
pub open spec fn task_total(s: Seq<StoryView>) -> nat
    decreases s.len(),
{
    if s.len() == 0 {
        0
    } else {
        task_total(s.drop_last()) + s.last().tasks.len()
    }
}

/// The number of completed tasks of all stories.
pub open spec fn task_done_total(s: Seq<StoryView>) -> nat
    decreases s.len(),
{
    if s.len() == 0 {
        0
    } else {
        task_done_total(s.drop_last()) + done_count(s.last().tasks)
    }
}

/// The changed files, one per line of `git diff --name-status` output.
pub fn changed_files_of(diff_output: &str) -> (r: Vec<String>)
    ensures
        strs(r@) == lines(diff_output@),
{
    let v = chars_of(diff_output);
    let ls = lines_of(&v);
    let mut r: Vec<String> = Vec::new();
    let mut i: usize = 0;
    while i < ls.len()
        invariant
            i <= ls@.len(),
            strs(r@) == views(ls@).take(i as int),
        decreases ls@.len() - i,
    {
        let s = string_of(&ls[i]);
        let ghost prev = r@;
        r.push(s);
        assert(strs(r@) =~= strs(prev).push(s@));
        assert(views(ls@).take(i + 1) =~= views(ls@).take(i as int).push(ls@[i as int]@));
        i += 1;
    }
    assert(views(ls@).take(ls@.len() as int) == views(ls@));
    r
}

fn count_done_tasks(s: &Story) -> (n: usize)
    ensures
        n == done_count(s@.tasks),
        n <= s@.tasks.len(),
{
    let mut n: usize = 0;
    let mut j: usize = 0;
    while j < s.tasks.len()
        invariant
            j <= s.tasks@.len(),
            n == done_count(s@.tasks.take(j as int)),
            n <= j,
        decreases s.tasks@.len() - j,
    {
        assert(s@.tasks.take(j + 1).drop_last() =~= s@.tasks.take(j as int));
        assert(s@.tasks[j as int] == s.tasks@[j as int]@);
        if s.tasks[j].done {
            n += 1;
        }
        j += 1;
    }
    assert(s@.tasks.take(s@.tasks.len() as int) == s@.tasks);
    n
}

/// Builds the result of a loop from the change's refreshed stories and the
/// changed files: how many stories and tasks there are, and how many are
/// complete.
pub fn build_loop_result(change_name: String, stories: Vec<Story>, changed_files: Vec<String>) -> (r:
    LoopResult)
    requires
        task_total(stories_view(stories@)) <= usize::MAX,
    ensures
        r.change_name@ == change_name@,
        r.stories_total == stories@.len(),
        r.stories_completed == count_complete(stories_view(stories@)),
        r.tasks_total == task_total(stories_view(stories@)),
        r.tasks_completed == task_done_total(stories_view(stories@)),
        strs(r.changed_files@) == strs(changed_files@),
        stories_view(r.stories@) == stories_view(stories@),
{
    let ghost sv = stories_view(stories@);
    let stories_completed = completed_count(&stories);
    let mut tasks_total: usize = 0;
    let mut tasks_completed: usize = 0;
    let mut i: usize = 0;
    while i < stories.len()
        invariant
            i <= stories@.len(),
            sv == stories_view(stories@),
            task_total(sv) <= usize::MAX,
            tasks_total == task_total(sv.take(i as int)),
            tasks_completed == task_done_total(sv.take(i as int)),
            tasks_completed <= tasks_total,
        decreases stories@.len() - i,
    {
        assert(sv.take(i + 1).drop_last() =~= sv.take(i as int));
        assert(sv.take(i + 1).last() == stories@[i as int]@);
        proof {
            lemma_task_total_prefix(sv, i + 1);
        }
        let d = count_done_tasks(&stories[i]);
        tasks_total = tasks_total + stories[i].tasks.len();
        tasks_completed = tasks_completed + d;
        i += 1;
    }
    assert(sv.take(stories@.len() as int) == sv);
    LoopResult {
        change_name,
        stories_completed,
        stories_total: stories.len(),
        tasks_completed,
        tasks_total,
        changed_files,
        stories,
    }
}

/// The tasks of a prefix of the stories are no more than those of all.
proof fn lemma_task_total_prefix(s: Seq<StoryView>, n: int)
    requires
        0 <= n <= s.len(),
    ensures
        task_total(s.take(n)) <= task_total(s),
    decreases s.len() - n,
{
    if n < s.len() {
        lemma_task_total_prefix(s, n + 1);
        assert(s.take(n + 1).drop_last() =~= s.take(n));
    } else {
        assert(s.take(n) == s);
    }
}

} // verus!
