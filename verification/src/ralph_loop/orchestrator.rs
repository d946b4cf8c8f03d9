//! Decisions of the Ralph Loop orchestrator.
//!
//! The orchestrator iterates through stories one at a time: it picks the
//! first incomplete story, runs an agent on it, reads the promise signal in
//! the agent's output, and either moves on, retries the story (after a
//! revert), or gives up once the story has failed `max_retries` times. The
//! running of agents, git and events happens around this module; what to do
//! next is decided here, by [`StoryLoop`].

use vstd::prelude::*;

use crate::error::{error_message, Error};
use crate::ralph_loop::LoopState;
use crate::spec::openspec::find_story;
use crate::spec::types::{stories_view, story_complete, Story, StoryView};
use crate::text::{
    chars_of, concat2, contains, decimal, decimal_string, find, find_chars, lemma_find, push_str,
    string_of, str_eq, sub_chars, trim, trim_chars,
};

verus! {

/// Completion signal that agents output when a story is done and verified.
pub const COMPLETION_SIGNAL: &'static str = "<promise>COMPLETE</promise>";

/// Failure signal prefix that agents output when they cannot complete a story.
pub const FAILURE_SIGNAL_PREFIX: &'static str = "<promise>FAILED:";

/// Failure signal suffix.
pub const FAILURE_SIGNAL_SUFFIX: &'static str = "</promise>";

/// Default maximum number of retries per story.
pub const DEFAULT_MAX_RETRIES: usize = 3;

// ============================================================================
// Promise signals
// ============================================================================

/// Result of parsing agent output for promise signals.
#[derive(Debug, PartialEq, Eq)]
pub enum AgentResult {
    /// Agent signaled successful completion with `<promise>COMPLETE</promise>`.
    Complete,
    /// Agent signaled failure with `<promise>FAILED: {reason}</promise>`.
    Failed(String),
    /// No promise signal found (abnormal termination).
    NoSignal,
}

/// Abstract value of an [`AgentResult`].
pub enum SignalView {
    Complete,
    Failed(Seq<char>),
    NoSignal,
}

impl View for AgentResult {
    type V = SignalView;

    open spec fn view(&self) -> SignalView {
        match self {
            AgentResult::Complete => SignalView::Complete,
            AgentResult::Failed(r) => SignalView::Failed(r@),
            AgentResult::NoSignal => SignalView::NoSignal,
        }
    }
}

/// The promise signal of an agent's output: completion wherever it occurs;
/// otherwise the trimmed text between the first failure prefix and the next
/// suffix after it; otherwise none.
pub open spec fn agent_signal(content: Seq<char>) -> SignalView {
    if contains(content, COMPLETION_SIGNAL@) {
        SignalView::Complete
    } else {
        match find(content, FAILURE_SIGNAL_PREFIX@) {
            Some(i) => {
                let after = content.skip(i + FAILURE_SIGNAL_PREFIX@.len());
                match find(after, FAILURE_SIGNAL_SUFFIX@) {
                    Some(j) => SignalView::Failed(trim(after.take(j))),
                    None => SignalView::NoSignal,
                }
            },
            None => SignalView::NoSignal,
        }
    }
}

/// Parses agent output for promise signals.
pub fn parse_agent_result(content: &str) -> (r: AgentResult)
    ensures
        r@ == agent_signal(content@),
{
    let v = chars_of(content);
    let c = chars_of(COMPLETION_SIGNAL);
    if find_chars(&v, &c).is_some() {
        return AgentResult::Complete;
    }
    let p = chars_of(FAILURE_SIGNAL_PREFIX);
    match find_chars(&v, &p) {
        Some(i) => {
            proof {
                lemma_find(v@, p@);
            }
            let plen = p.len();
            let vlen = v.len();
            assert(i + plen <= vlen);
            let after = sub_chars(&v, i + plen, vlen);
            assert(after@ == v@.skip(i + p@.len()));
            let s = chars_of(FAILURE_SIGNAL_SUFFIX);
            match find_chars(&after, &s) {
                Some(j) => {
                    proof {
                        lemma_find(after@, s@);
                    }
                    let reason = sub_chars(&after, 0, j);
                    assert(reason@ == after@.take(j as int));
                    let t = trim_chars(&reason);
                    AgentResult::Failed(string_of(&t))
                },
                None => AgentResult::NoSignal,
            }
        },
        None => AgentResult::NoSignal,
    }
}

/// Completion takes precedence: output that holds the completion signal
/// means completion, whatever failure signals it holds as well.
pub proof fn law_completion_takes_precedence(content: Seq<char>)
    requires
        contains(content, COMPLETION_SIGNAL@),
    ensures
        agent_signal(content) == SignalView::Complete,
{
}

// ============================================================================
// Stories
// ============================================================================

/// Checks if a story is complete (it has tasks, and all of them are done).
pub fn is_story_complete(story: &Story) -> (b: bool)
    ensures
        b == story_complete(story@),
{
    if story.tasks.len() == 0 {
        return false;
    }
    let mut i: usize = 0;
    while i < story.tasks.len()
        invariant
            i <= story.tasks@.len(),
            forall|j: int| 0 <= j < i ==> (#[trigger] story.tasks@[j]).done,
        decreases story.tasks@.len() - i,
    {
        if !story.tasks[i].done {
            assert(story@.tasks[i as int] == story.tasks@[i as int]@);
            return false;
        }
        i += 1;
    }
    assert forall|j: int| 0 <= j < story@.tasks.len() implies (#[trigger] story@.tasks[j]).done by {
        assert(story@.tasks[j] == story.tasks@[j]@);
    }
    true
}

/// Whether `i` is the first story of `s` that is not complete.
pub open spec fn is_first_incomplete(s: Seq<StoryView>, i: int) -> bool {
    &&& 0 <= i < s.len()
    &&& !story_complete(s[i])
    &&& forall|j: int| 0 <= j < i ==> story_complete(#[trigger] s[j])
}

/// Whether every story of `s` is complete.
pub open spec fn all_complete(s: Seq<StoryView>) -> bool {
    forall|j: int| 0 <= j < s.len() ==> story_complete(#[trigger] s[j])
}

/// The number of complete stories.
pub open spec fn count_complete(s: Seq<StoryView>) -> nat
    decreases s.len(),
{
    if s.len() == 0 {
        0
    } else {
        count_complete(s.drop_last()) + if story_complete(s.last()) {
            1nat
        } else {
            0nat
        }
    }
}

/// No more stories are complete than there are stories.
pub proof fn lemma_count_complete_bounded(s: Seq<StoryView>)
    ensures
        count_complete(s) <= s.len(),
    decreases s.len(),
{
    if s.len() > 0 {
        lemma_count_complete_bounded(s.drop_last());
    }
}

/// Index of the first incomplete story, if any.
pub fn first_incomplete_index(stories: &[Story]) -> (r: Option<usize>)
    ensures
        match r {
            Some(i) => is_first_incomplete(stories_view(stories@), i as int),
            None => all_complete(stories_view(stories@)),
        },
{
    let ghost sv = stories_view(stories@);
    let mut i: usize = 0;
    while i < stories.len()
        invariant
            i <= stories@.len(),
            sv == stories_view(stories@),
            forall|j: int| 0 <= j < i ==> story_complete(#[trigger] sv[j]),
        decreases stories@.len() - i,
    {
        if !is_story_complete(&stories[i]) {
            return Some(i);
        }
        i += 1;
    }
    None
}

/// Returns the first incomplete story, or `None` if all are complete.
pub fn next_incomplete_story(stories: &[Story]) -> (r: Option<&Story>)
    ensures
        match r {
            Some(s) => exists|i: int| #[trigger]
                is_first_incomplete(stories_view(stories@), i) && s@ == stories_view(stories@)[i],
            None => all_complete(stories_view(stories@)),
        },
{
    match first_incomplete_index(stories) {
        Some(i) => {
            assert(is_first_incomplete(stories_view(stories@), i as int));
            Some(&stories[i])
        },
        None => None,
    }
}

/// Counts the complete stories.
pub fn completed_count(stories: &[Story]) -> (n: usize)
    ensures
        n == count_complete(stories_view(stories@)),
{
    let mut n: usize = 0;
    let mut i: usize = 0;
    while i < stories.len()
        invariant
            i <= stories@.len(),
            n == count_complete(stories_view(stories@.take(i as int))),
            n <= i,
        decreases stories@.len() - i,
    {
        proof {
            assert(stories_view(stories@.take(i + 1)).drop_last() =~= stories_view(
                stories@.take(i as int),
            ));
        }
        if is_story_complete(&stories[i]) {
            n += 1;
        }
        i += 1;
    }
    assert(stories@.take(stories@.len() as int) == stories@);
    n
}

/// Position (1-indexed) of the first story with the given id.
fn story_position(stories: &[Story], id: &str) -> (p: usize)
    requires
        find_story(stories_view(stories@), id@) is Some,
    ensures
        p == find_story(stories_view(stories@), id@).unwrap() + 1,
{
    let ghost sv = stories_view(stories@);
    let mut i: usize = 0;
    while i < stories.len()
        invariant
            i <= stories@.len(),
            sv == stories_view(stories@),
            find_story(sv, id@) is Some,
            find_story(sv.take(i as int), id@) is None,
        decreases stories@.len() - i,
    {
        proof {
            assert(sv.take(i + 1).drop_last() =~= sv.take(i as int));
        }
        if str_eq(stories[i].id.as_str(), id) {
            proof {
                lemma_find_story_extends(sv, id@, i + 1);
            }
            return i + 1;
        }
        i += 1;
    }
    assert(sv.take(stories@.len() as int) == sv);
    0
}

/// A match found in a prefix is the match of the whole sequence.
proof fn lemma_find_story_extends(s: Seq<StoryView>, id: Seq<char>, n: int)
    requires
        0 <= n <= s.len(),
        find_story(s.take(n), id) is Some,
    ensures
        find_story(s, id) == find_story(s.take(n), id),
    decreases s.len() - n,
{
    if n == s.len() {
        assert(s.take(n) == s);
    } else {
        assert(s.take(n + 1).drop_last() == s.take(n));
        lemma_find_story_extends(s, id, n + 1);
    }
}

/// The first incomplete story is found by its own id.
proof fn lemma_find_story_of_member(s: Seq<StoryView>, i: int)
    requires
        0 <= i < s.len(),
    ensures
        find_story(s, s[i].id) is Some,
        find_story(s, s[i].id).unwrap() <= i,
    decreases s.len(),
{
    if i < s.len() - 1 {
        lemma_find_story_of_member(s.drop_last(), i);
    } else {
        lemma_find_story_range(s.drop_last(), s[i].id);
    }
}

/// A story found by id is within the sequence and has that id.
pub proof fn lemma_find_story_range(s: Seq<StoryView>, id: Seq<char>)
    ensures
        find_story(s, id) matches Some(j) ==> 0 <= j < s.len() && s[j].id == id,
    decreases s.len(),
{
    if s.len() > 0 {
        lemma_find_story_range(s.drop_last(), id);
    }
}

// ============================================================================
// The story loop
// ============================================================================

/// Progress on a story, reported when the loop starts working on it.
#[derive(Debug, Clone)]
pub struct StoryProgress {
    /// ID of the current story.
    pub story_id: String,
    /// Title of the current story.
    pub story_title: String,
    /// Current story number (1-indexed).
    pub current: usize,
    /// Total number of stories.
    pub total: usize,
    /// Number of completed stories.
    pub completed: usize,
}

/// How an agent run on the current story ended.
#[derive(Debug)]
pub enum AgentOutcome {
    /// The agent finished; its final output.
    Finished(String),
    /// The agent could not be run or failed while running.
    Errored(Error),
}

/// What the loop does after an agent run.
#[derive(Debug, PartialEq, Eq)]
pub enum NextStep {
    /// The story is done: move on to the next incomplete story.
    NextStory,
    /// Revert to the checkpoint and run the agent on the story again.
    Retry,
    /// Max retries exceeded: report the message and stop the loop.
    GiveUp(String),
}

/// Abstract value of the retry bookkeeping of a [`StoryLoop`].
pub struct StoryLoopView {
    pub max_retries: nat,
    pub retry_count: nat,
    pub retry_reason: Option<Seq<char>>,
    pub story_id: Seq<char>,
    pub story_title: Seq<char>,
}

/// The orchestrator's decisions for one run of the loop: which story comes
/// next, and what follows each agent run. The loop state it keeps is the
/// one the orchestrator reports.
pub struct StoryLoop {
    /// The reported loop state.
    pub state: LoopState,
    /// Maximum number of retries per story.
    pub max_retries: usize,
    /// Failed attempts at the current story.
    pub retry_count: usize,
    /// Failure reason reported by the last attempt, for the next prompt.
    pub retry_reason: Option<String>,
    /// ID of the current story.
    pub story_id: String,
    /// Title of the current story.
    pub story_title: String,
}

/// The number of times a story is attempted before the loop gives up on
/// it: `max_retries`, but at least once.
pub open spec fn attempts_allowed(max_retries: nat) -> nat {
    if max_retries == 0 {
        1
    } else {
        max_retries
    }
}

/// The message with which the loop gives up on a story, after an agent
/// run that ended with `signal` (or, for `None`, with an error whose
/// message is `error`).
pub open spec fn give_up_message(
    max_retries: nat,
    story_id: Seq<char>,
    story_title: Seq<char>,
    signal: Option<SignalView>,
    error: Seq<char>,
) -> Seq<char> {
    let head = "Max retries ("@ + decimal(max_retries) + ") exceeded for story "@ + story_id + " ("@
        + story_title + "): "@;
    match signal {
        Some(SignalView::Failed(reason)) => head + reason,
        Some(_) => head + "agent finished without completion signal"@,
        None => head + error,
    }
}

impl View for StoryLoop {
    type V = StoryLoopView;

    open spec fn view(&self) -> StoryLoopView {
        StoryLoopView {
            max_retries: self.max_retries as nat,
            retry_count: self.retry_count as nat,
            retry_reason: match self.retry_reason {
                Some(r) => Some(r@),
                None => None,
            },
            story_id: self.story_id@,
            story_title: self.story_title@,
        }
    }
}

impl StoryLoop {
    /// Whether the current story is still being attempted: it has failed
    /// fewer times than it may be attempted.
    pub open spec fn attempting(&self) -> bool {
        self@.retry_count < attempts_allowed(self@.max_retries)
    }

    /// Starts the loop for a change: running, with no story yet.
    pub fn new(change_name: &str, max_retries: usize) -> (l: Self)
        ensures
            l.state.change_name@ == change_name@,
            l.state.running,
            l.state.current_story_id is None,
            l.state.total_stories == 0,
            l.state.completed_stories == 0,
            l.state.started_story_ids@.len() == 0,
            l@.max_retries == max_retries,
            l@.retry_count == 0,
            l@.retry_reason is None,
            l.attempting(),
    {
        let mut state = LoopState::new(change_name);
        state.running = true;
        StoryLoop {
            state,
            max_retries,
            retry_count: 0,
            retry_reason: None,
            story_id: String::new(),
            story_title: String::new(),
        }
    }

    /// The ID of the story being worked on.
    pub fn story_id(&self) -> (s: &str)
        ensures
            s@ == self@.story_id,
    {
        self.story_id.as_str()
    }

    /// The title of the story being worked on.
    pub fn story_title(&self) -> (s: &str)
        ensures
            s@ == self@.story_title,
    {
        self.story_title.as_str()
    }

    /// The maximum number of retries per story.
    pub fn max_retries(&self) -> (n: usize)
        ensures
            n == self@.max_retries,
    {
        self.max_retries
    }

    /// Stops the loop (a stop was requested, or the loop is over).
    pub fn finish(&mut self)
        ensures
            !final(self).state.running,
            final(self).state.current_story_id == old(self).state.current_story_id,
            final(self).state.total_stories == old(self).state.total_stories,
            final(self).state.completed_stories == old(self).state.completed_stories,
            final(self)@ == old(self)@,
    {
        self.state.running = false;
    }

    /// Takes in the refreshed story list: updates the progress counts, and
    /// picks the first incomplete story to work on, with a fresh retry
    /// count. Returns the progress to report, or `None` when all stories
    /// are complete (the loop is then done).
    pub fn select_story(&mut self, stories: &[Story]) -> (r: Option<StoryProgress>)
        ensures
            final(self).state.change_name == old(self).state.change_name,
            final(self).state.running == old(self).state.running,
            final(self).state.started_story_ids == old(self).state.started_story_ids,
            final(self).state.total_stories == stories@.len(),
            final(self).state.completed_stories == count_complete(stories_view(stories@)),
            final(self)@.max_retries == old(self)@.max_retries,
            match r {
                Some(p) => exists|i: int| #[trigger]
                    is_first_incomplete(stories_view(stories@), i) && {
                        let s = stories_view(stories@)[i];
                        &&& p.story_id@ == s.id
                        &&& p.story_title@ == s.title
                        &&& p.current == find_story(stories_view(stories@), s.id).unwrap() + 1
                        &&& p.total == stories@.len()
                        &&& p.completed == count_complete(stories_view(stories@))
                        &&& final(self).state.current_story_id matches Some(c) && c@ == s.id
                        &&& final(self)@.story_id == s.id
                        &&& final(self)@.story_title == s.title
                        &&& final(self)@.retry_count == 0
                        &&& final(self)@.retry_reason is None
                    },
                None => all_complete(stories_view(stories@)) && final(self).state.current_story_id is None
                    && final(self)@ == old(self)@,
            },
            r is Some ==> final(self).attempting(),
    {
        self.state.total_stories = stories.len();
        self.state.completed_stories = completed_count(stories);
        match first_incomplete_index(stories) {
            Some(i) => {
                let ghost sv = stories_view(stories@);
                let story = &stories[i];
                assert(sv[i as int] == story@);
                proof {
                    lemma_find_story_of_member(sv, i as int);
                    lemma_count_complete_bounded(sv);
                }
                let current = story_position(stories, story.id.as_str());
                self.state.current_story_id = Some(story.id.clone());
                self.story_id = story.id.clone();
                self.story_title = story.title.clone();
                self.retry_count = 0;
                self.retry_reason = None;
                let p = StoryProgress {
                    story_id: story.id.clone(),
                    story_title: story.title.clone(),
                    current,
                    total: stories.len(),
                    completed: self.state.completed_stories,
                };
                assert(is_first_incomplete(sv, i as int));
                Some(p)
            },
            None => {
                self.state.current_story_id = None;
                None
            },
        }
    }

    /// Takes the failure reason of the previous attempt, for the prompt of
    /// the next one; afterwards none is kept.
    pub fn take_retry_reason(&mut self) -> (r: Option<String>)
        ensures
            match r {
                Some(s) => old(self)@.retry_reason == Some(s@),
                None => old(self)@.retry_reason is None,
            },
            final(self)@.retry_reason is None,
            final(self)@.retry_count == old(self)@.retry_count,
            final(self)@.max_retries == old(self)@.max_retries,
            final(self)@.story_id == old(self)@.story_id,
            final(self)@.story_title == old(self)@.story_title,
            final(self).state == old(self).state,
    {
        self.retry_reason.take()
    }

    /// Decides what follows an agent run on the current story. Completion
    /// moves on to the next story. Any other ending counts as a failed
    /// attempt: once the story has failed `max_retries` times the loop gives
    /// up with a message; before that it retries, passing an explicit
    /// failure reason on to the next prompt.
    pub fn record_outcome(&mut self, outcome: AgentOutcome) -> (n: NextStep)
        requires
            old(self).attempting(),
        ensures
            final(self).state == old(self).state,
            final(self)@.max_retries == old(self)@.max_retries,
            final(self)@.story_id == old(self)@.story_id,
            final(self)@.story_title == old(self)@.story_title,
            match outcome {
                AgentOutcome::Finished(c) => match agent_signal(c@) {
                    SignalView::Complete => n == NextStep::NextStory && final(self)@ == old(self)@,
                    SignalView::Failed(reason) => final(self)@.retry_count == old(self)@.retry_count + 1
                        && if final(self)@.retry_count >= old(self)@.max_retries {
                        n matches NextStep::GiveUp(m) && m@ == give_up_message(
                            old(self)@.max_retries,
                            old(self)@.story_id,
                            old(self)@.story_title,
                            Some(agent_signal(c@)),
                            Seq::empty(),
                        )
                    } else {
                        n == NextStep::Retry && final(self)@.retry_reason == Some(reason)
                    },
                    SignalView::NoSignal => final(self)@.retry_count == old(self)@.retry_count + 1
                        && if final(self)@.retry_count >= old(self)@.max_retries {
                        n matches NextStep::GiveUp(m) && m@ == give_up_message(
                            old(self)@.max_retries,
                            old(self)@.story_id,
                            old(self)@.story_title,
                            Some(agent_signal(c@)),
                            Seq::empty(),
                        )
                    } else {
                        n == NextStep::Retry && final(self)@.retry_reason is None
                    },
                },
                AgentOutcome::Errored(e) => final(self)@.retry_count == old(self)@.retry_count + 1
                    && if final(self)@.retry_count >= old(self)@.max_retries {
                    n matches NextStep::GiveUp(m) && m@ == give_up_message(
                        old(self)@.max_retries,
                        old(self)@.story_id,
                        old(self)@.story_title,
                        None,
                        error_message(e),
                    )
                } else {
                    n == NextStep::Retry && final(self)@.retry_reason is None
                },
            },
            n == NextStep::Retry ==> final(self).attempting(),
    {
        let signal: Option<AgentResult> = match &outcome {
            AgentOutcome::Finished(c) => Some(parse_agent_result(c.as_str())),
            AgentOutcome::Errored(_) => None,
        };
        if let Some(AgentResult::Complete) = &signal {
            return NextStep::NextStory;
        }
        self.retry_count = self.retry_count + 1;
        if self.retry_count >= self.max_retries {
            let mut m = String::new();
            push_str(&mut m, "Max retries (");
            let d = decimal_string(self.max_retries);
            push_str(&mut m, d.as_str());
            push_str(&mut m, ") exceeded for story ");
            push_str(&mut m, self.story_id.as_str());
            push_str(&mut m, " (");
            push_str(&mut m, self.story_title.as_str());
            push_str(&mut m, "): ");
            match (signal, outcome) {
                (Some(AgentResult::Failed(reason)), _) => push_str(&mut m, reason.as_str()),
                (Some(_), _) => push_str(&mut m, "agent finished without completion signal"),
                (None, AgentOutcome::Errored(e)) => {
                    let msg = e.to_string();
                    push_str(&mut m, msg.as_str());
                },
                (None, AgentOutcome::Finished(_)) => {},
            }
            return NextStep::GiveUp(m);
        }
        self.retry_reason = match signal {
            Some(AgentResult::Failed(reason)) => Some(reason),
            _ => None,
        };
        NextStep::Retry
    }
}

/// A story is attempted at most `max(1, max_retries)` times: while the
/// loop still attempts it, fewer attempts than that have failed, and a
/// failed attempt that reaches that number makes the loop give up.
pub proof fn law_attempts_bounded(max_retries: nat, failed_before: nat)
    requires
        failed_before < attempts_allowed(max_retries),
    ensures
        failed_before + 1 >= max_retries <==> failed_before + 1 == attempts_allowed(max_retries),
{
}

/// Message reported when the checkpoint of a completed story cannot be
/// dropped; the loop goes on.
pub fn drop_failed_message(story_id: &str, err: &Error) -> (m: String)
    ensures
        m@ == "Warning: Failed to drop checkpoint for story "@ + story_id@ + ": "@ + error_message(
            *err,
        ),
{
    let mut m = String::new();
    push_str(&mut m, "Warning: Failed to drop checkpoint for story ");
    push_str(&mut m, story_id);
    push_str(&mut m, ": ");
    let e = err.to_string();
    push_str(&mut m, e.as_str());
    m
}

/// Message reported when the work of a failed attempt cannot be reverted.
pub fn revert_failed_message(story_id: &str, err: &Error) -> (m: String)
    ensures
        m@ == "Failed to revert checkpoint for story "@ + story_id@ + ": "@ + error_message(*err),
{
    let mut m = String::new();
    push_str(&mut m, "Failed to revert checkpoint for story ");
    push_str(&mut m, story_id);
    push_str(&mut m, ": ");
    let e = err.to_string();
    push_str(&mut m, e.as_str());
    m
}

/// A step of the loop, other than the agent run, that failed.
#[derive(Debug)]
pub enum LoopFailure {
    /// Creating the shared learnings file.
    Learnings(Error),
    /// Setting up the checkpoint branch at the start.
    Init(Error),
    /// Reading the change's stories, or building a story's prompt.
    Adapter(Error),
    /// Committing the checkpoint of a completed story.
    Commit { story_id: String, error: Error },
    /// Reverting the work of a failed attempt.
    Revert { story_id: String, error: Error },
}

/// What the loop does after a failed step: the message it reports, and
/// whether it goes on.
#[derive(Debug)]
pub struct FailureOutcome {
    /// The message reported.
    pub message: String,
    /// Whether the loop goes on with the next story; otherwise it stops.
    pub go_on: bool,
}

/// The loop stops on a failure to set up the checkpoint branch, of the
/// adapter or of a revert, reporting the error (with what failed); a
/// failure to create the learnings file, or to commit a completed story, is
/// reported and the loop goes on.
pub fn failure_outcome(f: &LoopFailure) -> (o: FailureOutcome)
    ensures
        match f {
            LoopFailure::Learnings(e) => o.message@ == error_message(*e) && o.go_on,
            LoopFailure::Init(e) => o.message@ == "Failed to initialize checkpoint: "@ + error_message(*e)
                && !o.go_on,
            LoopFailure::Adapter(e) => o.message@ == error_message(*e) && !o.go_on,
            LoopFailure::Commit { story_id, error } => o.message@ == "Warning: Failed to drop checkpoint for story "@
                + story_id@ + ": "@ + error_message(*error) && o.go_on,
            LoopFailure::Revert { story_id, error } => o.message@ == "Failed to revert checkpoint for story "@
                + story_id@ + ": "@ + error_message(*error) && !o.go_on,
        },
{
    match f {
        LoopFailure::Learnings(e) => FailureOutcome { message: e.to_string(), go_on: true },
        LoopFailure::Init(e) => {
            let m = e.to_string();
            FailureOutcome { message: concat2("Failed to initialize checkpoint: ", m.as_str()), go_on: false }
        },
        LoopFailure::Adapter(e) => FailureOutcome { message: e.to_string(), go_on: false },
        LoopFailure::Commit { story_id, error } => FailureOutcome {
            message: drop_failed_message(story_id.as_str(), error),
            go_on: true,
        },
        LoopFailure::Revert { story_id, error } => FailureOutcome {
            message: revert_failed_message(story_id.as_str(), error),
            go_on: false,
        },
    }
}

} // verus!
