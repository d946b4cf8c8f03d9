//! Learnings recorded during Ralph Loop iterations. They accumulate in the
//! session state and are written to `design.md` when the session ends.

use vstd::prelude::*;

use crate::agent::cli::LearnArgs;
use crate::agent::session::{now_rfc3339, SessionLearning, SessionState};

verus! {

/// Response from the learn command.
#[derive(Debug, Clone)]
pub struct LearnResponse {
    pub success: bool,
    pub learning: String,
    pub task_id: Option<String>,
    pub total_learnings: usize,
}

/// Response from the pattern command.
#[derive(Debug, Clone)]
pub struct PatternResponse {
    pub success: bool,
    pub name: String,
    pub description: String,
    pub total_patterns: usize,
}

/// Records a learning in the session, for the current story if one is
/// set, and reports how many learnings the session holds.
pub fn record_learning(
    session: &mut SessionState,
    description: String,
    task_id: Option<String>,
    story_id: Option<String>,
    timestamp: String,
) -> (r: LearnResponse)
    requires
        old(session).learnings@.len() < usize::MAX,
    ensures
        final(session).learnings@.len() == old(session).learnings@.len() + 1,
        final(session).learnings@.drop_last() == old(session).learnings@,
        final(session).learnings@.last().description@ == description@,
        final(session).learnings@.last().task_id == task_id,
        final(session).learnings@.last().story_id == story_id,
        final(session).learnings@.last().timestamp@ == timestamp@,
        final(session).session_id == old(session).session_id,
        final(session).change_name == old(session).change_name,
        final(session).current_story_id == old(session).current_story_id,
        final(session).completed_tasks == old(session).completed_tasks,
        r.success,
        r.learning@ == description@,
        r.task_id == task_id,
        r.total_learnings == final(session).learnings@.len(),
{
    let learning = SessionLearning {
        description: description.clone(),
        task_id: task_id.clone(),
        story_id,
        timestamp,
    };
    session.learnings.push(learning);
    let total = session.learnings.len();
    LearnResponse { success: true, learning: description, task_id, total_learnings: total }
}

/// Runs the learn command on a session: the learning is recorded now, for
/// the current story if one is set.
pub fn learn(session: &mut SessionState, args: LearnArgs, story_id: Option<String>) -> (r: LearnResponse)
    requires
        old(session).learnings@.len() < usize::MAX,
    ensures
        final(session).learnings@.len() == old(session).learnings@.len() + 1,
        final(session).learnings@.drop_last() == old(session).learnings@,
        final(session).learnings@.last().description@ == args.description@,
        final(session).learnings@.last().task_id == args.task,
        final(session).learnings@.last().story_id == story_id,
        crate::text::contains(final(session).learnings@.last().timestamp@, "T"@),
        r.success,
        r.learning@ == args.description@,
        r.task_id == args.task,
        r.total_learnings == final(session).learnings@.len(),
{
    let timestamp = now_rfc3339();
    record_learning(session, args.description, args.task, story_id, timestamp)
}

} // verus!
