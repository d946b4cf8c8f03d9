//! Session lifecycle for the Ralph Loop orchestrator.
//!
//! A session holds the state of one run: the change, the current story
//! scope, and the learnings and completed tasks accumulated so far. It is
//! stored in the temp directory between agent spawns and flushed at the end
//! of the run. This module holds the session data and the decisions of the
//! session commands; reading, writing and locking files happens around it.

use vstd::prelude::*;

use crate::ralph::types::{ralph_stories_view, ralph_tasks_view, Story, Task};
use crate::spec::types::{StoryView, TaskView};
use crate::text::{
    add_line, chars_of, concat2, concat3, concat5, find, find_chars, join_path, lemma_seq_lt_irreflexive,
    lemma_seq_lt_total, lemma_seq_lt_transitive, pairs_view, path_join, push_str, seq_lt, str_eq,
    str_less, string_of, strs, sub_chars, contains,
};

verus! {

/// Session state stored in the temp directory.
#[derive(Debug, Clone)]
pub struct SessionState {
    /// Unique identifier for this session (UUID v4).
    pub session_id: String,
    /// Name of the change being worked on.
    pub change_name: String,
    /// Current story being worked on (set by `session next-story`).
    pub current_story_id: Option<String>,
    /// ISO 8601 timestamp when the session was created.
    pub created_at: String,
    /// Learnings accumulated during this session.
    pub learnings: Vec<SessionLearning>,
    /// Task IDs completed during this session.
    pub completed_tasks: Vec<String>,
}

/// A learning recorded during the session.
#[derive(Debug, Clone)]
pub struct SessionLearning {
    /// Description of what was learned.
    pub description: String,
    /// Optional task ID this learning relates to.
    pub task_id: Option<String>,
    /// Story ID when this learning was recorded.
    pub story_id: Option<String>,
    /// ISO 8601 timestamp when the learning was recorded.
    pub timestamp: String,
}

/// Response from the `session init` command.
#[derive(Debug, Clone)]
pub struct InitResponse {
    pub session_id: String,
    pub change_name: String,
    pub stories: Vec<StoryInfo>,
}

/// Story information returned in the init response.
#[derive(Debug, Clone)]
pub struct StoryInfo {
    pub id: String,
    pub title: String,
    pub tasks_total: usize,
    pub tasks_done: usize,
}

/// Response from the `session next-story` command.
#[derive(Debug, Clone)]
pub struct NextStoryResponse {
    /// True if all stories are complete.
    pub complete: bool,
    /// Story ID if one is available.
    pub story_id: Option<String>,
    /// Story title if one is available.
    pub story_title: Option<String>,
}

/// Response from the `session flush` command.
#[derive(Debug, Clone)]
pub struct FlushResponse {
    pub success: bool,
    pub learnings_written: usize,
}

/// The number of completed tasks.
pub open spec fn done_count(tasks: Seq<TaskView>) -> nat
    decreases tasks.len(),
{
    if tasks.len() == 0 {
        0
    } else {
        done_count(tasks.drop_last()) + if tasks.last().done {
            1nat
        } else {
            0nat
        }
    }
}

/// No more tasks are completed than there are tasks.
pub proof fn lemma_done_count_bounded(tasks: Seq<TaskView>)
    ensures
        done_count(tasks) <= tasks.len(),
    decreases tasks.len(),
{
    if tasks.len() > 0 {
        lemma_done_count_bounded(tasks.drop_last());
    }
}

/// Counts the completed tasks.
pub fn count_done(tasks: &Vec<Task>) -> (n: usize)
    ensures
        n == done_count(ralph_tasks_view(tasks@)),
{
    let mut n: usize = 0;
    let mut i: usize = 0;
    while i < tasks.len()
        invariant
            i <= tasks@.len(),
            n == done_count(ralph_tasks_view(tasks@).take(i as int)),
            n <= i,
        decreases tasks@.len() - i,
    {
        assert(ralph_tasks_view(tasks@).take(i + 1).drop_last() =~= ralph_tasks_view(tasks@).take(
            i as int,
        ));
        if tasks[i].complete {
            n += 1;
        }
        i += 1;
    }
    assert(ralph_tasks_view(tasks@).take(tasks@.len() as int) == ralph_tasks_view(tasks@));
    n
}

/// Whether the story information describes a story: its id and title, and
/// how many of its tasks there are and are done.
pub open spec fn info_of(i: StoryInfo, s: StoryView) -> bool {
    &&& i.id@ == s.id
    &&& i.title@ == s.title
    &&& i.tasks_total == s.tasks.len()
    &&& i.tasks_done == done_count(s.tasks)
}

/// The information of each story, in order.
pub fn story_infos(stories: &Vec<Story>) -> (r: Vec<StoryInfo>)
    ensures
        r@.len() == stories@.len(),
        forall|k: int| 0 <= k < r@.len() ==> info_of(#[trigger] r@[k], ralph_stories_view(stories@)[k]),
{
    let mut r: Vec<StoryInfo> = Vec::new();
    let mut i: usize = 0;
    while i < stories.len()
        invariant
            i <= stories@.len(),
            r@.len() == i,
            forall|k: int| 0 <= k < i ==> info_of(#[trigger] r@[k], ralph_stories_view(stories@)[k]),
        decreases stories@.len() - i,
    {
        let s = &stories[i];
        let info = StoryInfo {
            id: s.id.clone(),
            title: s.title.clone(),
            tasks_total: s.tasks.len(),
            tasks_done: count_done(&s.tasks),
        };
        r.push(info);
        i += 1;
    }
    r
}

/// A new session for a change, with no story, learnings or completed
/// tasks yet.
pub fn new_session(session_id: String, change_name: &str, created_at: String) -> (s: SessionState)
    ensures
        s.session_id@ == session_id@,
        s.change_name@ == change_name@,
        s.current_story_id is None,
        s.created_at@ == created_at@,
        s.learnings@.len() == 0,
        s.completed_tasks@.len() == 0,
{
    SessionState {
        session_id,
        change_name: change_name.to_owned(),
        current_story_id: None,
        created_at,
        learnings: Vec::new(),
        completed_tasks: Vec::new(),
    }
}

/// Whether a text is a version 4 UUID in its hyphenated lowercase form:
/// 36 characters, hyphens at positions 8, 13, 18 and 23, lowercase hex
/// digits elsewhere, and the version digit `4` at position 14.
pub open spec fn is_uuid_v4_text(s: Seq<char>) -> bool {
    &&& s.len() == 36
    &&& s[8] == '-' && s[13] == '-' && s[18] == '-' && s[23] == '-'
    &&& s[14] == '4'
    &&& forall|i: int|
        0 <= i < 36 && i != 8 && i != 13 && i != 18 && i != 23 ==> {
            let c = #[trigger] s[i];
            ('0' <= c <= '9') || ('a' <= c <= 'f')
        }
}

/// Calls `uuid::Uuid::new_v4()` and formats the result with its `Display`
/// impl. The UUID is random; whatever it is, the text is a version 4 UUID
/// in hyphenated lowercase form, as the crate's formatting code writes it.
/// It takes no input that could make it panic; it panics only when the
/// operating system's random source fails, which this contract leaves out.
#[verifier::external_body]
fn random_session_id() -> (id: String)
    ensures
        is_uuid_v4_text(id@),
{
    uuid::Uuid::new_v4().to_string()
}

/// Calls `chrono::Utc::now()` and formats the time with `to_rfc3339()`. The
/// time is the machine's; whatever it is, the text has the date and time
/// separated by a `T` and ends with the UTC offset `+00:00`. It takes no
/// input that could make it panic; it panics only when the system clock is
/// set before 1970, which this contract leaves out.
#[verifier::external_body]
pub(crate) fn now_rfc3339() -> (t: String)
    ensures
        crate::text::contains(t@, "T"@),
        t@.len() >= 6 && t@.skip(t@.len() - 6) == "+00:00"@,
{
    chrono::Utc::now().to_rfc3339()
}

/// Starts a session for a change: a fresh random session id, the current
/// time as creation time, and no story, learnings or completed tasks yet.
pub fn start_session(change_name: &str) -> (s: SessionState)
    ensures
        is_uuid_v4_text(s.session_id@),
        s.change_name@ == change_name@,
        s.current_story_id is None,
        crate::text::contains(s.created_at@, "T"@),
        s.learnings@.len() == 0,
        s.completed_tasks@.len() == 0,
{
    let id = random_session_id();
    let created_at = now_rfc3339();
    new_session(id, change_name, created_at)
}

/// The response of `session init`: the session, its change, and the
/// information of each story.
pub fn init_response(state: &SessionState, stories: &Vec<Story>) -> (r: InitResponse)
    ensures
        r.session_id@ == state.session_id@,
        r.change_name@ == state.change_name@,
        r.stories@.len() == stories@.len(),
        forall|k: int|
            0 <= k < r.stories@.len() ==> info_of(#[trigger] r.stories@[k], ralph_stories_view(stories@)[k]),
{
    InitResponse {
        session_id: state.session_id.clone(),
        change_name: state.change_name.clone(),
        stories: story_infos(stories),
    }
}

/// Whether a story has a task that is not complete (a story without tasks
/// has none).
pub open spec fn has_open_task(s: StoryView) -> bool {
    exists|j: int| 0 <= j < s.tasks.len() && !(#[trigger] s.tasks[j]).done
}

/// Whether `i` is the first story with a task that is not complete.
pub open spec fn is_next_open(s: Seq<StoryView>, i: int) -> bool {
    &&& 0 <= i < s.len()
    &&& has_open_task(s[i])
    &&& forall|k: int| 0 <= k < i ==> !has_open_task(#[trigger] s[k])
}

fn story_has_open_task(s: &Story) -> (b: bool)
    ensures
        b == has_open_task(s@),
{
    let mut j: usize = 0;
    while j < s.tasks.len()
        invariant
            j <= s.tasks@.len(),
            forall|k: int| 0 <= k < j ==> (#[trigger] s@.tasks[k]).done,
        decreases s.tasks@.len() - j,
    {
        assert(s@.tasks[j as int] == s.tasks@[j as int]@);
        if !s.tasks[j].complete {
            return true;
        }
        j += 1;
    }
    false
}

/// Picks the next story of the session: the first story with a task that
/// is not complete becomes the session's current story; without one, the
/// session has no current story and the change is complete.
pub fn next_story(state: &mut SessionState, stories: &Vec<Story>) -> (r: NextStoryResponse)
    ensures
        final(state).session_id == old(state).session_id,
        final(state).change_name == old(state).change_name,
        final(state).created_at == old(state).created_at,
        final(state).learnings == old(state).learnings,
        final(state).completed_tasks == old(state).completed_tasks,
        match r.story_id {
            Some(id) => exists|i: int| #[trigger]
                is_next_open(ralph_stories_view(stories@), i) && {
                    let s = ralph_stories_view(stories@)[i];
                    &&& id@ == s.id
                    &&& !r.complete
                    &&& r.story_title matches Some(t) && t@ == s.title
                    &&& final(state).current_story_id matches Some(c) && c@ == s.id
                },
            None => r.complete && r.story_title is None && final(state).current_story_id is None
                && forall|k: int|
                0 <= k < stories@.len() ==> !has_open_task(#[trigger] ralph_stories_view(stories@)[k]),
        },
{
    let ghost sv = ralph_stories_view(stories@);
    let mut i: usize = 0;
    while i < stories.len()
        invariant
            i <= stories@.len(),
            *state == *old(state),
            sv == ralph_stories_view(stories@),
            forall|k: int| 0 <= k < i ==> !has_open_task(#[trigger] sv[k]),
        decreases stories@.len() - i,
    {
        assert(sv[i as int] == stories@[i as int]@);
        if story_has_open_task(&stories[i]) {
            let s = &stories[i];
            assert(is_next_open(sv, i as int));
            state.current_story_id = Some(s.id.clone());
            return NextStoryResponse {
                complete: false,
                story_id: Some(s.id.clone()),
                story_title: Some(s.title.clone()),
            };
        }
        i += 1;
    }
    state.current_story_id = None;
    NextStoryResponse { complete: true, story_id: None, story_title: None }
}

/// The response of `session flush`: how many learnings were written.
pub fn flush_response(state: &SessionState) -> (r: FlushResponse)
    ensures
        r.success,
        r.learnings_written == state.learnings@.len(),
{
    FlushResponse { success: true, learnings_written: state.learnings.len() }
}

/// The completed task ids after recording `id`: appended unless it is
/// there already.
pub open spec fn recorded_tasks(ts: Seq<Seq<char>>, id: Seq<char>) -> Seq<Seq<char>> {
    if ts.contains(id) {
        ts
    } else {
        ts.push(id)
    }
}

/// Recording a completed task twice is the same as recording it once.
pub proof fn law_record_completed_task_idempotent(ts: Seq<Seq<char>>, id: Seq<char>)
    ensures
        recorded_tasks(recorded_tasks(ts, id), id) == recorded_tasks(ts, id),
        recorded_tasks(ts, id).contains(id),
{
    if !ts.contains(id) {
        assert(ts.push(id)[ts.len() as int] == id);
    }
}

/// Records a task as completed in the session, once.
pub fn record_completed_task(state: &mut SessionState, task_id: &str) -> (added: bool)
    ensures
        added == !strs(old(state).completed_tasks@).contains(task_id@),
        strs(final(state).completed_tasks@) == recorded_tasks(strs(old(state).completed_tasks@), task_id@),
        final(state).learnings == old(state).learnings,
        final(state).current_story_id == old(state).current_story_id,
        final(state).change_name == old(state).change_name,
{
    let mut i: usize = 0;
    while i < state.completed_tasks.len()
        invariant
            i <= state.completed_tasks@.len(),
            *state == *old(state),
            forall|k: int| 0 <= k < i ==> (#[trigger] state.completed_tasks@[k])@ != task_id@,
        decreases state.completed_tasks@.len() - i,
    {
        if crate::text::str_eq(state.completed_tasks[i].as_str(), task_id) {
            assert(strs(state.completed_tasks@)[i as int] == task_id@);
            return false;
        }
        i += 1;
    }
    proof {
        let t = strs(state.completed_tasks@);
        if t.contains(task_id@) {
            let k = choose|k: int| 0 <= k < t.len() && t[k] == task_id@;
            assert(state.completed_tasks@[k]@ == task_id@);
        }
    }
    add_line(&mut state.completed_tasks, task_id);
    true
}

/// The session file: `{temp_dir}/ralph/sessions/{session_id}.json`.
pub open spec fn session_file_of(temp_dir: Seq<char>, session_id: Seq<char>) -> Seq<char> {
    join_path(join_path(join_path(temp_dir, "ralph"@), "sessions"@), session_id + ".json"@)
}

/// Returns the path to the session state file below a temp directory.
pub fn session_file_path(temp_dir: &str, session_id: &str) -> (p: String)
    ensures
        p@ == session_file_of(temp_dir@, session_id@),
{
    let a = path_join(temp_dir, "ralph");
    let b = path_join(a.as_str(), "sessions");
    let f = concat2(session_id, ".json");
    path_join(b.as_str(), f.as_str())
}

/// The lock file of a change: `{cwd}/.ralph/locks/{change_name}.lock`.
pub open spec fn lock_file_of(cwd: Seq<char>, change_name: Seq<char>) -> Seq<char> {
    join_path(join_path(join_path(cwd, ".ralph"@), "locks"@), change_name + ".lock"@)
}

/// Returns the path to the lock file for a change below a working
/// directory.
pub fn lock_file_path(cwd: &str, change_name: &str) -> (p: String)
    ensures
        p@ == lock_file_of(cwd@, change_name@),
{
    let a = path_join(cwd, ".ralph");
    let b = path_join(a.as_str(), "locks");
    let f = concat2(change_name, ".lock");
    path_join(b.as_str(), f.as_str())
}


// ============================================================================
// Learnings written to design.md
// ============================================================================

/// The date of a timestamp: the text before its first `T` (all of it
/// without one).
pub open spec fn date_of(timestamp: Seq<char>) -> Seq<char> {
    match find(timestamp, "T"@) {
        Some(i) => timestamp.take(i),
        None => timestamp,
    }
}

/// The group of a learning: its date, and its story (or "General").
pub open spec fn group_of(l: SessionLearning) -> (Seq<char>, Seq<char>) {
    (
        date_of(l.timestamp@),
        match l.story_id {
            Some(s) => s@,
            None => "General"@,
        },
    )
}

/// The order of groups: by date, then by story.
pub open spec fn group_lt(p: (Seq<char>, Seq<char>), q: (Seq<char>, Seq<char>)) -> bool {
    seq_lt(p.0, q.0) || (p.0 == q.0 && seq_lt(p.1, q.1))
}

/// Whether groups are in strictly increasing order.
pub open spec fn groups_sorted(ks: Seq<(Seq<char>, Seq<char>)>) -> bool {
    forall|i: int, j: int| 0 <= i < j < ks.len() ==> group_lt(#[trigger] ks[i], #[trigger] ks[j])
}

/// Whether `ks` holds exactly the groups of the learnings.
pub open spec fn groups_of(ks: Seq<(Seq<char>, Seq<char>)>, ls: Seq<SessionLearning>) -> bool {
    forall|k: (Seq<char>, Seq<char>)|
        ks.contains(k) <==> exists|i: int| 0 <= i < ls.len() && #[trigger] group_of(ls[i]) == k
}

/// The line of a learning, with the task it relates to.
pub open spec fn learning_line(l: SessionLearning) -> Seq<char> {
    "- "@ + l.description@ + match l.task_id {
        Some(id) => " (Task "@ + id@ + ")"@,
        None => ""@,
    } + "\n"@
}

/// The lines of the learnings of a group, in their order.
pub open spec fn group_entries(ls: Seq<SessionLearning>, k: (Seq<char>, Seq<char>)) -> Seq<char>
    decreases ls.len(),
{
    if ls.len() == 0 {
        Seq::empty()
    } else {
        group_entries(ls.drop_last(), k) + if group_of(ls.last()) == k {
            learning_line(ls.last())
        } else {
            Seq::empty()
        }
    }
}

/// The groups, each with its heading and its learnings.
pub open spec fn learnings_markdown(ks: Seq<(Seq<char>, Seq<char>)>, ls: Seq<SessionLearning>) -> Seq<char>
    decreases ks.len(),
{
    if ks.len() == 0 {
        Seq::empty()
    } else {
        let k = ks.last();
        learnings_markdown(ks.drop_last(), ls) + "\n### "@ + k.0 + " - Story "@ + k.1 + "\n"@
            + group_entries(ls, k)
    }
}

proof fn lemma_group_lt_total(p: (Seq<char>, Seq<char>), q: (Seq<char>, Seq<char>))
    ensures
        p == q || group_lt(p, q) || group_lt(q, p),
        !(group_lt(p, q) && group_lt(q, p)),
        !group_lt(p, p),
{
    lemma_seq_lt_total(p.0, q.0);
    lemma_seq_lt_total(p.1, q.1);
    lemma_seq_lt_irreflexive(p.0);
    lemma_seq_lt_irreflexive(p.1);
}

proof fn lemma_group_lt_transitive(
    p: (Seq<char>, Seq<char>),
    q: (Seq<char>, Seq<char>),
    r: (Seq<char>, Seq<char>),
)
    requires
        group_lt(p, q),
        group_lt(q, r),
    ensures
        group_lt(p, r),
{
    if seq_lt(p.0, q.0) && seq_lt(q.0, r.0) {
        lemma_seq_lt_transitive(p.0, q.0, r.0);
    } else if seq_lt(p.0, q.0) {
    } else if seq_lt(q.0, r.0) {
    } else {
        lemma_seq_lt_transitive(p.1, q.1, r.1);
    }
}

fn group_less(a: &(String, String), b: &(String, String)) -> (r: bool)
    ensures
        r == group_lt((a.0@, a.1@), (b.0@, b.1@)),
{
    str_less(a.0.as_str(), b.0.as_str()) || (str_eq(a.0.as_str(), b.0.as_str()) && str_less(
        a.1.as_str(),
        b.1.as_str(),
    ))
}

/// Adds a group to a strictly increasing list of groups, unless it is there
/// already.
fn insert_group(v: &mut Vec<(String, String)>, x: (String, String))
    requires
        groups_sorted(pairs_view(old(v)@)),
    ensures
        groups_sorted(pairs_view(final(v)@)),
        forall|y: (Seq<char>, Seq<char>)|
            pairs_view(final(v)@).contains(y) <==> (pairs_view(old(v)@).contains(y) || y == (x.0@, x.1@)),
{
    let ghost old_s = pairs_view(v@);
    let ghost xv = (x.0@, x.1@);
    let mut p: usize = 0;
    while p < v.len()
        invariant
            p <= v@.len(),
            old_s == pairs_view(v@),
            xv == (x.0@, x.1@),
            groups_sorted(old_s),
            forall|k: int| 0 <= k < p ==> group_lt(#[trigger] old_s[k], xv),
        ensures
            p <= v@.len(),
            old_s == pairs_view(v@),
            forall|k: int| 0 <= k < p ==> group_lt(#[trigger] old_s[k], xv),
            p < v@.len() ==> !group_lt(old_s[p as int], xv),
        decreases v@.len() - p,
    {
        assert(old_s[p as int] == (v@[p as int].0@, v@[p as int].1@));
        if !group_less(&v[p], &x) {
            break;
        }
        p += 1;
    }
    if p < v.len() && str_eq(v[p].0.as_str(), x.0.as_str()) && str_eq(v[p].1.as_str(), x.1.as_str()) {
        assert(old_s[p as int] == xv);
        return;
    }
    proof {
        if p < old_s.len() {
            lemma_group_lt_total(old_s[p as int], xv);
        }
    }
    v.insert(p, x);
    let ghost new_s = pairs_view(v@);
    assert(new_s =~= old_s.insert(p as int, xv));
    assert forall|i: int, j: int| 0 <= i < j < new_s.len() implies group_lt(#[trigger] new_s[i], #[trigger] new_s[j]) by {
        if j < p {
        } else if j == p {
        } else if i < p {
            assert(new_s[j] == old_s[j - 1]);
            assert(group_lt(old_s[i], old_s[j - 1]));
        } else if i == p {
            assert(new_s[j] == old_s[j - 1]);
            if j - 1 > p {
                lemma_group_lt_transitive(xv, old_s[p as int], old_s[j - 1]);
            }
        } else {
            assert(new_s[i] == old_s[i - 1]);
            assert(new_s[j] == old_s[j - 1]);
        }
    }
    assert forall|y: (Seq<char>, Seq<char>)| new_s.contains(y) <==> (old_s.contains(y) || y == xv) by {
        if new_s.contains(y) {
            let k = choose|k: int| 0 <= k < new_s.len() && new_s[k] == y;
            if k < p {
                assert(old_s[k] == y);
            } else if k > p {
                assert(old_s[k - 1] == y);
            }
        }
        if old_s.contains(y) {
            let k = choose|k: int| 0 <= k < old_s.len() && old_s[k] == y;
            if k < p {
                assert(new_s[k] == y);
            } else {
                assert(new_s[k + 1] == y);
            }
        }
        if y == xv {
            assert(new_s[p as int] == y);
        }
    }
}

/// The group of a learning.
fn learning_group(l: &SessionLearning) -> (k: (String, String))
    ensures
        (k.0@, k.1@) == group_of(*l),
{
    let ts = chars_of(l.timestamp.as_str());
    let t = chars_of("T");
    let date = match find_chars(&ts, &t) {
        Some(i) => {
            proof {
                crate::text::lemma_find(ts@, t@);
            }
            string_of(&sub_chars(&ts, 0, i))
        },
        None => string_of(&ts),
    };
    let story = match &l.story_id {
        Some(s) => s.clone(),
        None => "General".to_owned(),
    };
    (date, story)
}

/// Appends the lines of the learnings of a group.
fn push_group_entries(out: &mut String, ls: &Vec<SessionLearning>, k: &(String, String))
    ensures
        final(out)@ == old(out)@ + group_entries(ls@, (k.0@, k.1@)),
{
    let ghost start = out@;
    let ghost kv = (k.0@, k.1@);
    let mut i: usize = 0;
    while i < ls.len()
        invariant
            i <= ls@.len(),
            kv == (k.0@, k.1@),
            out@ == start + group_entries(ls@.take(i as int), kv),
        decreases ls@.len() - i,
    {
        assert(ls@.take(i + 1).drop_last() =~= ls@.take(i as int));
        assert(ls@.take(i + 1).last() == ls@[i as int]);
        let l = &ls[i];
        let g = learning_group(l);
        let same_date = str_eq(g.0.as_str(), k.0.as_str());
        let same_story = str_eq(g.1.as_str(), k.1.as_str());
        if same_date && same_story {
            assert(group_of(*l) == kv);
            let ghost before = out@;
            push_str(out, "- ");
            push_str(out, l.description.as_str());
            match &l.task_id {
                Some(id) => {
                    let r = concat3(" (Task ", id.as_str(), ")");
                    push_str(out, r.as_str());
                },
                None => {
                    assert(out@ =~= out@ + ""@) by {
                        reveal_strlit("");
                    }
                },
            }
            push_str(out, "\n");
            assert(out@ =~= before + learning_line(*l));
        } else {
            assert(g.0@ != kv.0 || g.1@ != kv.1);
            assert(group_of(*l) != kv);
            assert(out@ =~= out@ + Seq::<char>::empty());
        }
        i += 1;
    }
    assert(ls@.take(ls@.len() as int) == ls@);
}

/// The learnings as markdown: grouped by date and story, the groups in
/// increasing order, each with a `### {date} - Story {story}` heading and
/// its learnings in the order they were recorded.
pub fn learnings_section(ls: &Vec<SessionLearning>) -> (t: String)
    ensures
        exists|ks: Seq<(Seq<char>, Seq<char>)>|
            groups_sorted(ks) && groups_of(ks, ls@) && t@ == #[trigger] learnings_markdown(ks, ls@),
{
    let mut groups: Vec<(String, String)> = Vec::new();
    let mut i: usize = 0;
    while i < ls.len()
        invariant
            i <= ls@.len(),
            groups_sorted(pairs_view(groups@)),
            groups_of(pairs_view(groups@), ls@.take(i as int)),
        decreases ls@.len() - i,
    {
        let ghost before = pairs_view(groups@);
        let g = learning_group(&ls[i]);
        insert_group(&mut groups, g);
        assert forall|k: (Seq<char>, Seq<char>)|
            pairs_view(groups@).contains(k) <==> exists|j: int|
                0 <= j < ls@.take(i + 1).len() && #[trigger] group_of(ls@.take(i + 1)[j]) == k by {
            if exists|j: int| 0 <= j < ls@.take(i + 1).len() && #[trigger] group_of(ls@.take(i + 1)[j]) == k {
                let j = choose|j: int| 0 <= j < ls@.take(i + 1).len() && #[trigger] group_of(ls@.take(i + 1)[j]) == k;
                if j < i {
                    assert(group_of(ls@.take(i as int)[j]) == k);
                    assert(before.contains(k));
                }
            }
            if before.contains(k) {
                let j = choose|j: int| 0 <= j < ls@.take(i as int).len() && #[trigger] group_of(ls@.take(i as int)[j]) == k;
                assert(group_of(ls@.take(i + 1)[j]) == k);
            }
            if k == group_of(ls@[i as int]) {
                assert(group_of(ls@.take(i + 1)[i as int]) == k);
            }
        }
        i += 1;
    }
    assert(ls@.take(ls@.len() as int) == ls@);
    let ghost ks = pairs_view(groups@);
    let mut out = String::new();
    let mut j: usize = 0;
    while j < groups.len()
        invariant
            j <= groups@.len(),
            ks == pairs_view(groups@),
            out@ == learnings_markdown(ks.take(j as int), ls@),
        decreases groups@.len() - j,
    {
        let k = &groups[j];
        assert(ks.take(j + 1).drop_last() =~= ks.take(j as int));
        assert(ks.take(j + 1).last() == (k.0@, k.1@));
        let h = concat5("\n### ", k.0.as_str(), " - Story ", k.1.as_str(), "\n");
        push_str(&mut out, h.as_str());
        push_group_entries(&mut out, ls, k);
        j += 1;
    }
    assert(ks.take(ks.len() as int) == ks);
    out
}

/// The design document with the markdown of the learnings, grouped by
/// `ks`, appended: a `## Learnings` section is added first when the
/// document has none.
pub open spec fn design_text(
    content: Seq<char>,
    ks: Seq<(Seq<char>, Seq<char>)>,
    ls: Seq<SessionLearning>,
) -> Seq<char> {
    (if contains(content, "## Learnings"@) {
        content
    } else {
        content + "\n## Learnings\n"@
    }) + learnings_markdown(ks, ls)
}

/// Flushing learnings never loses the design document: it is kept whole
/// at the start, and the learnings come after it.
pub proof fn law_design_keeps_content(
    content: Seq<char>,
    ks: Seq<(Seq<char>, Seq<char>)>,
    ls: Seq<SessionLearning>,
)
    ensures
        design_text(content, ks, ls).len() >= content.len(),
        design_text(content, ks, ls).take(content.len() as int) == content,
        design_text(content, ks, ls).skip(
            design_text(content, ks, ls).len() - learnings_markdown(ks, ls).len(),
        ) == learnings_markdown(ks, ls),
{
    let d = design_text(content, ks, ls);
    let head = if contains(content, "## Learnings"@) {
        content
    } else {
        content + "\n## Learnings\n"@
    };
    assert(d == head + learnings_markdown(ks, ls));
    assert(head.take(content.len() as int) =~= content);
    assert(d.take(content.len() as int) =~= content);
    assert(d.skip(d.len() - learnings_markdown(ks, ls).len()) =~= learnings_markdown(ks, ls));
}

/// The design document with the learnings appended: a `## Learnings`
/// section is added first when the document has none.
pub fn design_with_learnings(content: &str, ls: &Vec<SessionLearning>) -> (d: String)
    ensures
        exists|ks: Seq<(Seq<char>, Seq<char>)>|
            groups_sorted(ks) && groups_of(ks, ls@) && d@ == #[trigger] design_text(content@, ks, ls@),
{
    let v = chars_of(content);
    let h = chars_of("## Learnings");
    let mut d = content.to_owned();
    if find_chars(&v, &h).is_none() {
        push_str(&mut d, "\n## Learnings\n");
    }
    let text = learnings_section(ls);
    push_str(&mut d, text.as_str());
    proof {
        let ks = choose|ks: Seq<(Seq<char>, Seq<char>)>|
            groups_sorted(ks) && groups_of(ks, ls@) && text@ == #[trigger] learnings_markdown(ks, ls@);
        assert(d@ == design_text(content@, ks, ls@));
    }
    d
}

} // verus!
