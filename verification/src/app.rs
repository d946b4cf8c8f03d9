//! State of the TUI and how user input and loop events change it: screens,
//! tabs, scroll positions, navigation between started stories, and the
//! graceful/force quit protocol. The terminal, the loop thread and the
//! event channel live with the program; they hand this state plain values.

use vstd::prelude::*;

use crate::ralph_loop::{LoopState, DEFAULT_COMMAND_TIMEOUT_SECS, DEFAULT_MAX_RETRIES};
use crate::spec::openspec::ChangeInfo;
use crate::spec::types::{scenarios_view, Scenario, ScenarioView, Story};
use crate::text::{add_line, insert_sorted, str_eq, strictly_sorted, strs};
use crate::ui::{CompletionData, CompletionReason, LoopResult};

verus! {

/// The current screen being displayed.
#[derive(Debug, Clone, Copy, PartialEq, Eq, Structural)]
pub enum Screen {
    /// Screen for selecting a completed OpenSpec change.
    ChangeSelection,
    /// Screen for previewing conversion results.
    ConversionPreview,
    /// Screen for displaying loop progress.
    LoopExecution,
    /// Screen for choosing what happens to the ralph branch.
    LoopCompletion,
    /// Screen for reviewing loop results.
    LoopResult,
}

/// Tab selection for the preview screen.
#[derive(Debug, Clone, Copy, PartialEq, Eq, Structural, Default)]
pub enum PreviewTab {
    #[default]
    Tasks,
    Scenarios,
}

/// Tab selection for the loop execution screen.
#[derive(Debug, Clone, Copy, PartialEq, Eq, Structural, Default)]
pub enum LoopTab {
    /// Shows story title and task list with checkboxes.
    #[default]
    Info,
    /// Shows agent messages and responses.
    Agent,
}

/// Tab selection for the result screen.
#[derive(Debug, Clone, Copy, PartialEq, Eq, Structural, Default)]
pub enum ResultTab {
    /// Shows stories with their tasks and completion status.
    #[default]
    Tasks,
    /// Shows list of changed files from git diff.
    ChangedFiles,
}

/// Action to take after a quit key press during loop execution.
#[derive(Debug, Clone, Copy, PartialEq, Eq, Structural)]
pub enum ForceQuitAction {
    /// First press: request graceful stop.
    Graceful,
    /// Second press: show hint about force-quit.
    Hint,
    /// Third press: force-quit immediately.
    ForceQuit,
    /// Loop already stopped: navigate back to selection.
    NavigateBack,
}

/// Seconds within which consecutive quit presses count together.
pub const FORCE_QUIT_WINDOW_SECS: u64 = 3;

/// Number of consecutive quit presses required for force-quit.
pub const FORCE_QUIT_PRESS_COUNT: usize = 3;

/// Number of story indicators shown at once.
pub const VISIBLE_STORIES: usize = 5;

/// State of the TUI.
#[derive(Debug)]
pub struct App {
    pub running: bool,
    /// Current screen being displayed.
    pub screen: Screen,
    /// Name of the selected change (if any).
    pub selected_change_name: Option<String>,
    /// Loaded stories from the selected change.
    pub stories: Vec<Story>,
    /// Loaded scenarios from the selected change.
    pub scenarios: Vec<Scenario>,
    /// List of available changes for selection.
    pub available_changes: Vec<ChangeInfo>,
    /// Currently selected index in the change selection list.
    pub selected_index: usize,
    /// Scroll offset for the preview screen.
    pub scroll_offset: usize,
    /// Active tab in the preview screen.
    pub active_tab: PreviewTab,
    /// Scroll offset for the Tasks tab.
    pub tasks_scroll_offset: usize,
    /// Scroll offset for the Scenarios tab.
    pub scenarios_scroll_offset: usize,
    /// Loop execution state.
    pub loop_state: LoopState,
    /// Currently selected story index for navigation.
    pub loop_selected_story: usize,
    /// Active tab in the loop execution screen.
    pub loop_tab: LoopTab,
    /// Scroll offset for the Info tab.
    pub loop_info_scroll: usize,
    /// Scroll offset for the Agent tab.
    pub loop_agent_scroll: usize,
    /// Auto-scroll flag for the Agent tab (snap-to-bottom behavior).
    pub loop_agent_auto_scroll: bool,
    /// Last known max scroll position for the Agent tab.
    pub loop_agent_max_scroll: usize,
    /// Loop result for review.
    pub loop_result: LoopResult,
    /// Scroll offset for the result screen (Changed Files tab).
    pub result_scroll_offset: usize,
    /// Active tab in the result screen.
    pub result_tab: ResultTab,
    /// Scroll offset for the Tasks tab in the result screen.
    pub result_tasks_scroll: usize,
    /// Data of the completion screen.
    pub completion_data: CompletionData,
    /// The story on which the loop gave up, if it did.
    pub max_retries_exceeded_story: Option<String>,
    /// Maximum number of retries per story.
    pub max_retries: usize,
    /// Timeout in seconds for external commands.
    pub command_timeout: u64,
    /// Count of consecutive quit presses for the force-quit mechanism.
    pub quit_press_count: usize,
    /// Whether a quit press was seen since the counter was last reset.
    pub quit_pressed: bool,
}

/// The index before `i` in a list of `n` entries, wrapping to the last;
/// unchanged in an empty list.
pub open spec fn previous_index(i: usize, n: nat) -> usize {
    if n == 0 {
        i
    } else if i == 0 {
        (n - 1) as usize
    } else {
        (i - 1) as usize
    }
}

/// The index after `i` in a list of `n` entries, wrapping to the first;
/// unchanged in an empty list.
pub open spec fn next_index(i: usize, n: nat) -> usize {
    if n == 0 {
        i
    } else {
        ((i + 1) % (n as int)) as usize
    }
}

/// The other tab of the preview screen.
pub open spec fn other_preview_tab(t: PreviewTab) -> PreviewTab {
    match t {
        PreviewTab::Tasks => PreviewTab::Scenarios,
        PreviewTab::Scenarios => PreviewTab::Tasks,
    }
}

/// The other tab of the loop screen.
pub open spec fn other_loop_tab(t: LoopTab) -> LoopTab {
    match t {
        LoopTab::Info => LoopTab::Agent,
        LoopTab::Agent => LoopTab::Info,
    }
}

/// The other tab of the result screen.
pub open spec fn other_result_tab(t: ResultTab) -> ResultTab {
    match t {
        ResultTab::Tasks => ResultTab::ChangedFiles,
        ResultTab::ChangedFiles => ResultTab::Tasks,
    }
}

/// The started story ids after a story is seen: appended unless it was
/// started already.
pub open spec fn started_tracked(s: Seq<Seq<char>>, id: Seq<char>) -> Seq<Seq<char>> {
    if s.contains(id) {
        s
    } else {
        s.push(id)
    }
}

/// The app after a story is seen: unchanged when it was started already;
/// else the story is appended to the started ones (`started`), selected,
/// and the loop screen's scroll positions are reset with auto-scroll on.
pub open spec fn tracked_app(a: App, id: Seq<char>, started: Vec<String>) -> App {
    if strs(a.loop_state.started_story_ids@).contains(id) {
        a
    } else {
        App {
            loop_state: LoopState { started_story_ids: started, ..a.loop_state },
            loop_selected_story: a.loop_state.started_story_ids@.len() as usize,
            loop_info_scroll: 0,
            loop_agent_scroll: 0,
            loop_agent_auto_scroll: true,
            ..a
        }
    }
}

/// The started story ids after seeing the stories `ids` in order.
pub open spec fn started_after(s: Seq<Seq<char>>, ids: Seq<Seq<char>>) -> Seq<Seq<char>>
    decreases ids.len(),
{
    if ids.len() == 0 {
        s
    } else {
        started_tracked(started_after(s, ids.drop_last()), ids.last())
    }
}

/// What the loop reports to the app, without the agent's event payloads.
pub enum LoopSignal {
    /// A story is being worked on, with the counts of the change.
    Progress { story_id: String, total: usize, completed: usize },
    /// The agent reported an event while working on a story.
    Event { story_id: String },
    /// The loop gave up on a story.
    GaveUp { story_id: String },
    /// The loop finished.
    Finished,
}

/// The story ids that the signals show at work, in order.
pub open spec fn signal_ids(s: Seq<LoopSignal>) -> Seq<Seq<char>>
    decreases s.len(),
{
    if s.len() == 0 {
        Seq::empty()
    } else {
        let p = signal_ids(s.drop_last());
        match s.last() {
            LoopSignal::Progress { story_id, .. } => p.push(story_id@),
            LoopSignal::Event { story_id } => p.push(story_id@),
            _ => p,
        }
    }
}

/// The last progress signal, as (story id, total, completed).
pub open spec fn last_progress(s: Seq<LoopSignal>) -> Option<(Seq<char>, usize, usize)>
    decreases s.len(),
{
    if s.len() == 0 {
        None
    } else {
        match s.last() {
            LoopSignal::Progress { story_id, total, completed } => Some((story_id@, total, completed)),
            _ => last_progress(s.drop_last()),
        }
    }
}

/// The story of the last give-up signal.
pub open spec fn last_gave_up(s: Seq<LoopSignal>) -> Option<Seq<char>>
    decreases s.len(),
{
    if s.len() == 0 {
        None
    } else {
        match s.last() {
            LoopSignal::GaveUp { story_id } => Some(story_id@),
            _ => last_gave_up(s.drop_last()),
        }
    }
}

/// Whether one of the signals is the loop's finish.
pub open spec fn any_finished(s: Seq<LoopSignal>) -> bool
    decreases s.len(),
{
    if s.len() == 0 {
        false
    } else {
        s.last() is Finished || any_finished(s.drop_last())
    }
}

/// The app after a batch of signals, as far as a batch changes it: the
/// current story and counts of the last progress signal, the started
/// stories, the story given up on, and whether the loop still runs.
/// When stories were started, the last of them is selected and the scroll
/// positions are reset with auto-scroll on; else the selection and scroll
/// positions stay. Nothing else changes.
pub open spec fn batch_applied(a: App, b: App, s: Seq<LoopSignal>, disconnected: bool) -> bool {
    let n0 = a.loop_state.started_story_ids@.len();
    let n = b.loop_state.started_story_ids@.len();
    &&& strs(b.loop_state.started_story_ids@) == started_after(strs(a.loop_state.started_story_ids@), signal_ids(s))
    &&& match last_progress(s) {
        Some((id, t, c)) => b.loop_state.current_story_id matches Some(x) && x@ == id
            && b.loop_state.total_stories == t && b.loop_state.completed_stories == c,
        None => b.loop_state.current_story_id == a.loop_state.current_story_id
            && b.loop_state.total_stories == a.loop_state.total_stories
            && b.loop_state.completed_stories == a.loop_state.completed_stories,
    }
    &&& match last_gave_up(s) {
        Some(id) => b.max_retries_exceeded_story matches Some(x) && x@ == id,
        None => b.max_retries_exceeded_story == a.max_retries_exceeded_story,
    }
    &&& b.loop_state.running == (a.loop_state.running && !any_finished(s) && !disconnected)
    &&& if n > n0 {
        &&& b.loop_selected_story == n - 1
        &&& b.loop_info_scroll == 0
        &&& b.loop_agent_scroll == 0
        &&& b.loop_agent_auto_scroll
    } else {
        &&& n == n0
        &&& b.loop_selected_story == a.loop_selected_story
        &&& b.loop_info_scroll == a.loop_info_scroll
        &&& b.loop_agent_scroll == a.loop_agent_scroll
        &&& b.loop_agent_auto_scroll == a.loop_agent_auto_scroll
    }
    &&& b == (App {
        loop_state: LoopState {
            current_story_id: b.loop_state.current_story_id,
            total_stories: b.loop_state.total_stories,
            completed_stories: b.loop_state.completed_stories,
            running: b.loop_state.running,
            started_story_ids: b.loop_state.started_story_ids,
            ..a.loop_state
        },
        loop_selected_story: b.loop_selected_story,
        loop_info_scroll: b.loop_info_scroll,
        loop_agent_scroll: b.loop_agent_scroll,
        loop_agent_auto_scroll: b.loop_agent_auto_scroll,
        max_retries_exceeded_story: b.max_retries_exceeded_story,
        ..a
    })
}

proof fn lemma_started_after_push(s: Seq<Seq<char>>, ids: Seq<Seq<char>>, x: Seq<char>)
    ensures
        started_after(s, ids.push(x)) == started_tracked(started_after(s, ids), x),
{
    assert(ids.push(x).drop_last() =~= ids);
}

/// Whether no id occurs twice.
pub open spec fn distinct_ids(s: Seq<Seq<char>>) -> bool {
    forall|i: int, j: int| 0 <= i < j < s.len() ==> s[i] != s[j]
}

/// Started stories accumulate in the order they are first seen: the
/// stories started before stay in front, every story seen is started, and
/// none is started twice.
pub proof fn law_started_stories_accumulate(s: Seq<Seq<char>>, ids: Seq<Seq<char>>)
    requires
        distinct_ids(s),
    ensures
        distinct_ids(started_after(s, ids)),
        started_after(s, ids).len() >= s.len(),
        started_after(s, ids).take(s.len() as int) == s,
        forall|k: int| 0 <= k < ids.len() ==> started_after(s, ids).contains(#[trigger] ids[k]),
    decreases ids.len(),
{
    if ids.len() == 0 {
        assert(s.take(s.len() as int) =~= s);
    } else {
        let p = ids.drop_last();
        law_started_stories_accumulate(s, p);
        let a = started_after(s, p);
        let id = ids.last();
        if !a.contains(id) {
            let b = a.push(id);
            assert(b.take(s.len() as int) =~= a.take(s.len() as int));
            assert forall|i: int, j: int| 0 <= i < j < b.len() implies b[i] != b[j] by {
                if j == a.len() {
                    assert(b[i] == a[i]);
                }
            }
            assert(b[a.len() as int] == id);
        }
        assert forall|k: int| 0 <= k < ids.len() implies started_after(s, ids).contains(#[trigger] ids[k]) by {
            if k < p.len() {
                assert(p[k] == ids[k]);
                assert(a.contains(p[k]));
                if !a.contains(id) {
                    let w = choose|w: int| 0 <= w < a.len() && a[w] == p[k];
                    assert(a.push(id)[w] == p[k]);
                }
            } else {
                if !a.contains(id) {
                    assert(a.push(id)[a.len() as int] == id);
                }
            }
        }
    }
}

/// An offset moved by `delta` lines up (stopping at the top) or down
/// (stopping at the largest offset).
pub open spec fn scrolled(offset: usize, delta: usize, up: bool) -> usize {
    if up {
        if offset >= delta { (offset - delta) as usize } else { 0 }
    } else {
        if offset + delta <= usize::MAX { (offset + delta) as usize } else { usize::MAX }
    }
}

/// The app with the scroll offset of its current preview tab moved, all
/// else unchanged.
pub open spec fn preview_scrolled(a: App, delta: usize, up: bool) -> App {
    match a.active_tab {
        PreviewTab::Tasks => App { tasks_scroll_offset: scrolled(a.tasks_scroll_offset, delta, up), ..a },
        PreviewTab::Scenarios => App {
            scenarios_scroll_offset: scrolled(a.scenarios_scroll_offset, delta, up),
            ..a
        },
    }
}

/// The scenarios of a capability, in order.
pub open spec fn with_capability(scenarios: Seq<ScenarioView>, capability: Seq<char>) -> Seq<ScenarioView> {
    scenarios.filter(|s: ScenarioView| s.capability == capability)
}

/// Whether the selected story is one of the started stories (or, with none
/// started, the first position).
pub open spec fn selection_ok(app: App) -> bool {
    ||| app.loop_selected_story < app.loop_state.started_story_ids@.len()
    ||| app.loop_selected_story == 0
}

/// First shown story of the sliding window over `count` started stories,
/// centered on the selected one where possible.
pub open spec fn window_start(count: nat, selected: nat) -> nat {
    if count <= 5 {
        0
    } else if selected <= 2 {
        0
    } else if selected >= count - 3 {
        (count - 5) as nat
    } else {
        (selected - 2) as nat
    }
}

/// Number of shown stories.
pub open spec fn window_len(count: nat) -> nat {
    if count <= 5 {
        count
    } else {
        5
    }
}

/// What a quit press does while the loop runs, by how many presses
/// precede it within the window: the first requests a graceful stop, the
/// second shows a hint, the third and later force-quit.
pub open spec fn quit_action(count: nat) -> ForceQuitAction {
    if count == 1 {
        ForceQuitAction::Graceful
    } else if count == 2 {
        ForceQuitAction::Hint
    } else {
        ForceQuitAction::ForceQuit
    }
}

impl App {
    /// The state at start: running, on the selection screen, nothing loaded.
    pub fn new() -> (a: Self)
        ensures
            a.running,
            a.screen == Screen::ChangeSelection,
            a.selected_change_name is None,
            a.stories@.len() == 0,
            a.available_changes@.len() == 0,
            a.selected_index == 0,
            a.active_tab == PreviewTab::Tasks,
            a.loop_state.started_story_ids@.len() == 0,
            !a.loop_state.running,
            a.loop_selected_story == 0,
            a.loop_tab == LoopTab::Info,
            a.loop_agent_auto_scroll,
            a.result_tab == ResultTab::Tasks,
            a.max_retries == DEFAULT_MAX_RETRIES,
            a.command_timeout == DEFAULT_COMMAND_TIMEOUT_SECS,
            a.quit_press_count == 0,
            !a.quit_pressed,
            selection_ok(a),
    {
        App {
            running: true,
            screen: Screen::ChangeSelection,
            selected_change_name: None,
            stories: Vec::new(),
            scenarios: Vec::new(),
            available_changes: Vec::new(),
            selected_index: 0,
            scroll_offset: 0,
            active_tab: PreviewTab::Tasks,
            tasks_scroll_offset: 0,
            scenarios_scroll_offset: 0,
            loop_state: LoopState::new(""),
            loop_selected_story: 0,
            loop_tab: LoopTab::Info,
            loop_info_scroll: 0,
            loop_agent_scroll: 0,
            loop_agent_auto_scroll: true,
            loop_agent_max_scroll: 0,
            loop_result: LoopResult {
                change_name: String::new(),
                stories_completed: 0,
                stories_total: 0,
                tasks_completed: 0,
                tasks_total: 0,
                changed_files: Vec::new(),
                stories: Vec::new(),
            },
            result_scroll_offset: 0,
            result_tab: ResultTab::Tasks,
            result_tasks_scroll: 0,
            completion_data: CompletionData::default(),
            max_retries_exceeded_story: None,
            max_retries: DEFAULT_MAX_RETRIES,
            command_timeout: DEFAULT_COMMAND_TIMEOUT_SECS,
            quit_press_count: 0,
            quit_pressed: false,
        }
    }

    /// Sets the maximum number of retries per story.
    pub fn with_max_retries(self, max_retries: usize) -> (a: Self)
        ensures
            a == (App { max_retries, ..self }),
    {
        let mut a = self;
        a.max_retries = max_retries;
        a
    }

    /// Sets the timeout in seconds for external commands.
    pub fn with_command_timeout(self, timeout: u64) -> (a: Self)
        ensures
            a == (App { command_timeout: timeout, ..self }),
    {
        let mut a = self;
        a.command_timeout = timeout;
        a
    }

    /// Stops the application.
    pub fn quit(&mut self)
        ensures
            *final(self) == (App { running: false, ..*old(self) }),
    {
        self.running = false;
    }

    // ------------------------------------------------------------------
    // Change selection and preview
    // ------------------------------------------------------------------

    /// Moves selection up in the change list, wrapping to the last change.
    pub fn select_previous(&mut self)
        ensures
            *final(self) == (App {
                selected_index: previous_index(old(self).selected_index, old(self).available_changes@.len()),
                ..*old(self)
            }),
    {
        if self.available_changes.len() > 0 {
            if self.selected_index == 0 {
                self.selected_index = self.available_changes.len() - 1;
            } else {
                self.selected_index = self.selected_index - 1;
            }
        }
    }

    /// Moves selection down in the change list, wrapping to the first.
    pub fn select_next(&mut self)
        requires
            old(self).selected_index < usize::MAX,
        ensures
            *final(self) == (App {
                selected_index: next_index(old(self).selected_index, old(self).available_changes@.len()),
                ..*old(self)
            }),
    {
        if self.available_changes.len() > 0 {
            self.selected_index = (self.selected_index + 1) % self.available_changes.len();
        }
    }

    /// Selects a change by index, with its stories and scenarios already
    /// loaded, and moves on to the preview. An index beyond the list
    /// changes nothing.
    pub fn select_change(&mut self, index: usize, stories: Vec<Story>, scenarios: Vec<Scenario>)
        ensures
            index < old(self).available_changes@.len() ==> {
                &&& final(self).selected_change_name matches Some(n) && n@ == old(self).available_changes@[index as int].name@
                &&& *final(self) == (App {
                    selected_change_name: final(self).selected_change_name,
                    stories,
                    scenarios,
                    screen: Screen::ConversionPreview,
                    scroll_offset: 0,
                    ..*old(self)
                })
            },
            index >= old(self).available_changes@.len() ==> *final(self) == *old(self),
    {
        if index < self.available_changes.len() {
            self.selected_change_name = Some(self.available_changes[index].name.clone());
            self.stories = stories;
            self.scenarios = scenarios;
            self.screen = Screen::ConversionPreview;
            self.scroll_offset = 0;
        }
    }

    /// Navigates back to the selection screen; the selection is kept.
    pub fn back_to_selection(&mut self)
        ensures
            *final(self) == (App { screen: Screen::ChangeSelection, ..*old(self) }),
    {
        self.screen = Screen::ChangeSelection;
    }

    /// Returns the scenarios that belong to a capability, in order.
    pub fn scenarios_for_capability(&self, capability: &str) -> (r: Vec<Scenario>)
        ensures
            scenarios_view(r@) == with_capability(scenarios_view(self.scenarios@), capability@),
    {
        let ghost all = scenarios_view(self.scenarios@);
        let mut r: Vec<Scenario> = Vec::new();
        let mut i: usize = 0;
        while i < self.scenarios.len()
            invariant
                i <= self.scenarios@.len(),
                all == scenarios_view(self.scenarios@),
                scenarios_view(r@) == with_capability(all.take(i as int), capability@),
            decreases self.scenarios@.len() - i,
        {
            proof {
                reveal(Seq::filter);
                assert(all.take(i + 1).drop_last() =~= all.take(i as int));
                assert(all.take(i + 1).last() == self.scenarios@[i as int]@);
            }
            if str_eq(self.scenarios[i].capability.as_str(), capability) {
                let c = self.scenarios[i].copy();
                let ghost prev = r@;
                r.push(c);
                assert(scenarios_view(r@) =~= scenarios_view(prev).push(c@));
            }
            i += 1;
        }
        assert(all.take(all.len() as int) == all);
        r
    }

    /// Returns the capabilities of the scenarios, each once, in increasing
    /// order.
    pub fn unique_capabilities(&self) -> (r: Vec<String>)
        ensures
            strictly_sorted(strs(r@)),
            forall|c: Seq<char>|
                strs(r@).contains(c) <==> exists|k: int|
                    0 <= k < self.scenarios@.len() && (#[trigger] self.scenarios@[k]).capability@ == c,
    {
        let mut r: Vec<String> = Vec::new();
        let mut i: usize = 0;
        while i < self.scenarios.len()
            invariant
                i <= self.scenarios@.len(),
                strictly_sorted(strs(r@)),
                forall|c: Seq<char>|
                    strs(r@).contains(c) <==> exists|k: int|
                        0 <= k < i && (#[trigger] self.scenarios@[k]).capability@ == c,
            decreases self.scenarios@.len() - i,
        {
            let ghost before = strs(r@);
            insert_sorted(&mut r, self.scenarios[i].capability.as_str());
            assert forall|c: Seq<char>|
                strs(r@).contains(c) <==> exists|k: int|
                    0 <= k < i + 1 && (#[trigger] self.scenarios@[k]).capability@ == c by {
                if exists|k: int| 0 <= k < i + 1 && (#[trigger] self.scenarios@[k]).capability@ == c {
                    let k = choose|k: int| 0 <= k < i + 1 && (#[trigger] self.scenarios@[k]).capability@ == c;
                    if k < i {
                        assert(before.contains(c));
                    }
                }
            }
            i += 1;
        }
        r
    }

    /// Returns the scroll offset of the current preview tab.
    pub fn get_scroll_offset(&self) -> (o: usize)
        ensures
            o == match self.active_tab {
                PreviewTab::Tasks => self.tasks_scroll_offset,
                PreviewTab::Scenarios => self.scenarios_scroll_offset,
            },
    {
        match self.active_tab {
            PreviewTab::Tasks => self.tasks_scroll_offset,
            PreviewTab::Scenarios => self.scenarios_scroll_offset,
        }
    }

    /// Moves the scroll offset of the current preview tab by `delta` lines
    /// up (saturating at the top) or down (saturating at the maximum).
    fn move_preview_scroll(&mut self, delta: usize, up: bool)
        ensures
            *final(self) == preview_scrolled(*old(self), delta, up),
    {
        match self.active_tab {
            PreviewTab::Tasks => {
                self.tasks_scroll_offset = if up {
                    self.tasks_scroll_offset.saturating_sub(delta)
                } else {
                    self.tasks_scroll_offset.saturating_add(delta)
                };
            },
            PreviewTab::Scenarios => {
                self.scenarios_scroll_offset = if up {
                    self.scenarios_scroll_offset.saturating_sub(delta)
                } else {
                    self.scenarios_scroll_offset.saturating_add(delta)
                };
            },
        }
    }

    /// Scrolls up one line in the preview screen.
    pub fn scroll_up(&mut self)
        ensures
            *final(self) == preview_scrolled(*old(self), 1, true),
    {
        self.move_preview_scroll(1, true);
    }

    /// Scrolls down one line in the preview screen.
    pub fn scroll_down(&mut self)
        ensures
            *final(self) == preview_scrolled(*old(self), 1, false),
    {
        self.move_preview_scroll(1, false);
    }

    /// Scrolls up a page in the preview screen.
    pub fn page_up(&mut self)
        ensures
            *final(self) == preview_scrolled(*old(self), 10, true),
    {
        self.move_preview_scroll(10, true);
    }

    /// Scrolls down a page in the preview screen.
    pub fn page_down(&mut self)
        ensures
            *final(self) == preview_scrolled(*old(self), 10, false),
    {
        self.move_preview_scroll(10, false);
    }

    /// Switches to the next tab in the preview screen.
    pub fn switch_to_next_tab(&mut self)
        ensures
            *final(self) == (App { active_tab: other_preview_tab(old(self).active_tab), ..*old(self) }),
    {
        self.active_tab = match self.active_tab {
            PreviewTab::Tasks => PreviewTab::Scenarios,
            PreviewTab::Scenarios => PreviewTab::Tasks,
        };
    }

    /// Switches to the previous tab in the preview screen.
    pub fn switch_to_previous_tab(&mut self)
        ensures
            *final(self) == (App { active_tab: other_preview_tab(old(self).active_tab), ..*old(self) }),
    {
        self.switch_to_next_tab();
    }

    // ------------------------------------------------------------------
    // Loop execution
    // ------------------------------------------------------------------

    /// Enters the loop screen for the selected change, with a fresh
    /// running loop state and no story selected yet. Without a selected
    /// change nothing happens.
    pub fn start_loop(&mut self) -> (started: bool)
        ensures
            started == old(self).selected_change_name is Some,
            started ==> {
                &&& final(self).screen == Screen::LoopExecution
                &&& final(self).loop_state.running
                &&& final(self).loop_state.started_story_ids@.len() == 0
                &&& final(self).loop_state.change_name@ == old(self).selected_change_name->0@
                &&& final(self).loop_selected_story == 0
                &&& final(self).loop_tab == LoopTab::Info
                &&& final(self).loop_agent_auto_scroll
            },
            !started ==> *final(self) == *old(self),
            selection_ok(*final(self)) || !started,
    {
        match &self.selected_change_name {
            Some(name) => {
                let mut state = LoopState::new(name.as_str());
                state.running = true;
                self.loop_state = state;
                self.loop_selected_story = 0;
                self.loop_tab = LoopTab::Info;
                self.loop_info_scroll = 0;
                self.loop_agent_scroll = 0;
                self.loop_agent_auto_scroll = true;
                self.loop_agent_max_scroll = 0;
                self.screen = Screen::LoopExecution;
                true
            },
            None => false,
        }
    }

    /// Whether a story has been started already.
    fn is_started(&self, story_id: &str) -> (b: bool)
        ensures
            b == strs(self.loop_state.started_story_ids@).contains(story_id@),
    {
        let ghost s = strs(self.loop_state.started_story_ids@);
        let mut i: usize = 0;
        while i < self.loop_state.started_story_ids.len()
            invariant
                i <= self.loop_state.started_story_ids@.len(),
                s == strs(self.loop_state.started_story_ids@),
                forall|k: int| 0 <= k < i ==> s[k] != story_id@,
            decreases self.loop_state.started_story_ids@.len() - i,
        {
            if str_eq(self.loop_state.started_story_ids[i].as_str(), story_id) {
                assert(s[i as int] == story_id@);
                return true;
            }
            i += 1;
        }
        false
    }

    /// Records that a story has started, if it has not been seen before:
    /// it is appended to the started stories and selected, with the scroll
    /// positions reset.
    fn track_story(&mut self, story_id: &str)
        requires
            old(self).loop_state.started_story_ids@.len() < usize::MAX,
        ensures
            strs(final(self).loop_state.started_story_ids@) == started_tracked(
                strs(old(self).loop_state.started_story_ids@),
                story_id@,
            ),
            *final(self) == tracked_app(*old(self), story_id@, final(self).loop_state.started_story_ids),
            selection_ok(*old(self)) ==> selection_ok(*final(self)),
    {
        if !self.is_started(story_id) {
            let ghost before = self.loop_state.started_story_ids@;
            add_line(&mut self.loop_state.started_story_ids, story_id);
            assert(strs(self.loop_state.started_story_ids@).len() == strs(before).len() + 1);
            assert(self.loop_state.started_story_ids@.len() == before.len() + 1);
            self.loop_selected_story = self.loop_state.started_story_ids.len() - 1;
            self.loop_info_scroll = 0;
            self.loop_agent_scroll = 0;
            self.loop_agent_auto_scroll = true;
        }
    }

    /// Applies a story progress event: the current story and the counts,
    /// and the story is tracked as started.
    pub fn apply_story_progress(&mut self, story_id: &str, total: usize, completed: usize)
        requires
            old(self).loop_state.started_story_ids@.len() < usize::MAX,
        ensures
            final(self).loop_state.current_story_id matches Some(c) && c@ == story_id@,
            strs(final(self).loop_state.started_story_ids@) == started_tracked(
                strs(old(self).loop_state.started_story_ids@),
                story_id@,
            ),
            *final(self) == tracked_app(
                App {
                    loop_state: LoopState {
                        current_story_id: final(self).loop_state.current_story_id,
                        total_stories: total,
                        completed_stories: completed,
                        ..old(self).loop_state
                    },
                    ..*old(self)
                },
                story_id@,
                final(self).loop_state.started_story_ids,
            ),
            selection_ok(*old(self)) ==> selection_ok(*final(self)),
    {
        self.loop_state.current_story_id = Some(story_id.to_owned());
        self.loop_state.total_stories = total;
        self.loop_state.completed_stories = completed;
        self.track_story(story_id);
    }

    /// Applies an agent event of a story: the story is tracked as started.
    pub fn apply_story_event(&mut self, story_id: &str)
        requires
            old(self).loop_state.started_story_ids@.len() < usize::MAX,
        ensures
            strs(final(self).loop_state.started_story_ids@) == started_tracked(
                strs(old(self).loop_state.started_story_ids@),
                story_id@,
            ),
            *final(self) == tracked_app(*old(self), story_id@, final(self).loop_state.started_story_ids),
            selection_ok(*old(self)) ==> selection_ok(*final(self)),
    {
        self.track_story(story_id);
    }

    /// Applies the loop's completion (or the loss of its event channel):
    /// the loop no longer runs.
    pub fn apply_loop_finished(&mut self)
        ensures
            *final(self) == (App { loop_state: LoopState { running: false, ..old(self).loop_state }, ..*old(self) }),
    {
        self.loop_state.running = false;
    }

    /// Records the story on which the loop gave up.
    pub fn apply_max_retries_exceeded(&mut self, story_id: &str)
        ensures
            final(self).max_retries_exceeded_story matches Some(x) && x@ == story_id@,
            *final(self) == (App { max_retries_exceeded_story: final(self).max_retries_exceeded_story, ..*old(self) }),
    {
        self.max_retries_exceeded_story = Some(story_id.to_owned());
    }

    /// Applies a batch of loop signals in order, then the loss of the
    /// loop's channel if `disconnected`. Returns whether the loop has
    /// completed: it finished, or its channel is gone.
    pub fn apply_loop_signals(&mut self, signals: &Vec<LoopSignal>, disconnected: bool) -> (done: bool)
        requires
            old(self).loop_state.started_story_ids@.len() + signals@.len() < usize::MAX,
        ensures
            done == (any_finished(signals@) || disconnected),
            batch_applied(*old(self), *final(self), signals@, disconnected),
    {
        let ghost a0 = *self;
        let mut finished = false;
        let mut i: usize = 0;
        assert(signals@.take(0) =~= Seq::<LoopSignal>::empty());
        while i < signals.len()
            invariant
                i <= signals@.len(),
                a0.loop_state.started_story_ids@.len() + signals@.len() < usize::MAX,
                self.loop_state.started_story_ids@.len() <= a0.loop_state.started_story_ids@.len() + i,
                finished == any_finished(signals@.take(i as int)),
                batch_applied(a0, *self, signals@.take(i as int), false),
            decreases signals@.len() - i,
        {
            let ghost before = *self;
            let ghost pre = signals@.take(i as int);
            assert(signals@.take(i + 1).drop_last() =~= pre);
            assert(signals@.take(i + 1).last() == signals@[i as int]);
            match &signals[i] {
                LoopSignal::Progress { story_id, total, completed } => {
                    self.apply_story_progress(story_id.as_str(), *total, *completed);
                    proof {
                        lemma_started_after_push(
                            strs(a0.loop_state.started_story_ids@),
                            signal_ids(pre),
                            story_id@,
                        );
                    }
                },
                LoopSignal::Event { story_id } => {
                    self.apply_story_event(story_id.as_str());
                    proof {
                        lemma_started_after_push(
                            strs(a0.loop_state.started_story_ids@),
                            signal_ids(pre),
                            story_id@,
                        );
                    }
                },
                LoopSignal::GaveUp { story_id } => {
                    self.apply_max_retries_exceeded(story_id.as_str());
                },
                LoopSignal::Finished => {
                    self.apply_loop_finished();
                    finished = true;
                },
            }
            assert(strs(self.loop_state.started_story_ids@).len() == self.loop_state.started_story_ids@.len());
            assert(strs(before.loop_state.started_story_ids@).len() == before.loop_state.started_story_ids@.len());
            i += 1;
        }
        assert(signals@.take(signals@.len() as int) =~= signals@);
        if disconnected {
            self.apply_loop_finished();
        }
        finished || disconnected
    }

    /// Returns the indices into the started stories of those shown by the
    /// indicator: all of them when there are at most five, else a window of
    /// five centered on the selected story where possible.
    pub fn visible_story_range(&self) -> (r: (usize, usize))
        ensures
            r.0 == window_start(self.loop_state.started_story_ids@.len() as nat, self.loop_selected_story as nat),
            r.1 == r.0 + window_len(self.loop_state.started_story_ids@.len() as nat),
            r.1 <= self.loop_state.started_story_ids@.len(),
    {
        let count = self.loop_state.started_story_ids.len();
        if count <= 5 {
            (0, count)
        } else {
            let selected = self.loop_selected_story;
            let start = if selected <= 2 {
                0
            } else if selected >= count - 3 {
                count - 5
            } else {
                selected - 2
            };
            (start, start + 5)
        }
    }

    /// Returns the IDs of the stories shown by the indicator (at most five).
    pub fn visible_stories(&self) -> (r: Vec<&str>)
        ensures
            ({
                let count = self.loop_state.started_story_ids@.len() as nat;
                let start = window_start(count, self.loop_selected_story as nat);
                &&& r@.len() == window_len(count)
                &&& forall|k: int| 0 <= k < r@.len() ==> (#[trigger] r@[k])@ == self.loop_state.started_story_ids@[start + k]@
            }),
    {
        let (start, end) = self.visible_story_range();
        let mut r: Vec<&str> = Vec::new();
        let mut i = start;
        while i < end
            invariant
                start <= i <= end <= self.loop_state.started_story_ids@.len(),
                r@.len() == i - start,
                forall|k: int| 0 <= k < r@.len() ==> (#[trigger] r@[k])@ == self.loop_state.started_story_ids@[start + k]@,
            decreases end - i,
        {
            r.push(self.loop_state.started_story_ids[i].as_str());
            i += 1;
        }
        r
    }

    /// Returns the currently selected story ID, if any.
    pub fn current_story(&self) -> (r: Option<&str>)
        ensures
            match r {
                Some(s) => self.loop_selected_story < self.loop_state.started_story_ids@.len()
                    && s@ == self.loop_state.started_story_ids@[self.loop_selected_story as int]@,
                None => self.loop_selected_story >= self.loop_state.started_story_ids@.len(),
            },
    {
        if self.loop_selected_story < self.loop_state.started_story_ids.len() {
            Some(self.loop_state.started_story_ids[self.loop_selected_story].as_str())
        } else {
            None
        }
    }

    /// Returns true if the user can navigate to the previous story.
    pub fn can_navigate_left(&self) -> (b: bool)
        ensures
            b == (self.loop_selected_story > 0),
    {
        self.loop_selected_story > 0
    }

    /// Returns true if the user can navigate to the next started story.
    pub fn can_navigate_right(&self) -> (b: bool)
        ensures
            b == (self.loop_selected_story + 1 < self.loop_state.started_story_ids@.len()),
    {
        let started_count = self.loop_state.started_story_ids.len();
        started_count > 0 && self.loop_selected_story < started_count - 1
    }

    /// Navigates to the previous story, resetting the scroll positions.
    pub fn navigate_to_previous_story(&mut self)
        ensures
            old(self).loop_selected_story > 0 ==> *final(self) == (App {
                loop_selected_story: (old(self).loop_selected_story - 1) as usize,
                loop_info_scroll: 0,
                loop_agent_scroll: 0,
                loop_agent_auto_scroll: true,
                ..*old(self)
            }),
            old(self).loop_selected_story == 0 ==> *final(self) == *old(self),
            selection_ok(*old(self)) ==> selection_ok(*final(self)),
    {
        if self.can_navigate_left() {
            self.loop_selected_story = self.loop_selected_story - 1;
            self.loop_info_scroll = 0;
            self.loop_agent_scroll = 0;
            self.loop_agent_auto_scroll = true;
        }
    }

    /// Navigates to the next started story, resetting the scroll positions.
    pub fn navigate_to_next_story(&mut self)
        ensures
            old(self).loop_selected_story + 1 < old(self).loop_state.started_story_ids@.len() ==> *final(self)
                == (App {
                loop_selected_story: (old(self).loop_selected_story + 1) as usize,
                loop_info_scroll: 0,
                loop_agent_scroll: 0,
                loop_agent_auto_scroll: true,
                ..*old(self)
            }),
            old(self).loop_selected_story + 1 >= old(self).loop_state.started_story_ids@.len() ==> *final(self)
                == *old(self),
            selection_ok(*old(self)) ==> selection_ok(*final(self)),
    {
        let n = self.loop_state.started_story_ids.len();
        if n > 0 && self.loop_selected_story < n - 1 {
            self.loop_selected_story = self.loop_selected_story + 1;
            self.loop_info_scroll = 0;
            self.loop_agent_scroll = 0;
            self.loop_agent_auto_scroll = true;
        }
    }

    /// Switches between the Info and Agent tabs of the loop screen.
    pub fn switch_loop_tab(&mut self)
        ensures
            *final(self) == (App { loop_tab: other_loop_tab(old(self).loop_tab), ..*old(self) }),
    {
        self.loop_tab = match self.loop_tab {
            LoopTab::Info => LoopTab::Agent,
            LoopTab::Agent => LoopTab::Info,
        };
    }

    /// Scrolls up in the current loop tab; on the Agent tab this stops
    /// following new output.
    pub fn loop_scroll_up(&mut self)
        ensures
            *final(self) == match old(self).loop_tab {
                LoopTab::Info => App { loop_info_scroll: scrolled(old(self).loop_info_scroll, 1, true), ..*old(self) },
                LoopTab::Agent => App {
                    loop_agent_scroll: scrolled(old(self).loop_agent_scroll, 1, true),
                    loop_agent_auto_scroll: false,
                    ..*old(self)
                },
            },
    {
        match self.loop_tab {
            LoopTab::Info => self.loop_info_scroll = self.loop_info_scroll.saturating_sub(1),
            LoopTab::Agent => {
                self.loop_agent_scroll = self.loop_agent_scroll.saturating_sub(1);
                self.loop_agent_auto_scroll = false;
            },
        }
    }

    /// Scrolls down in the current loop tab; on the Agent tab, reaching the
    /// bottom follows new output again.
    pub fn loop_scroll_down(&mut self)
        ensures
            *final(self) == match old(self).loop_tab {
                LoopTab::Info => App { loop_info_scroll: scrolled(old(self).loop_info_scroll, 1, false), ..*old(self) },
                LoopTab::Agent => App {
                    loop_agent_scroll: scrolled(old(self).loop_agent_scroll, 1, false),
                    loop_agent_auto_scroll: old(self).loop_agent_auto_scroll || scrolled(
                        old(self).loop_agent_scroll,
                        1,
                        false,
                    ) >= old(self).loop_agent_max_scroll,
                    ..*old(self)
                },
            },
    {
        match self.loop_tab {
            LoopTab::Info => self.loop_info_scroll = self.loop_info_scroll.saturating_add(1),
            LoopTab::Agent => {
                self.loop_agent_scroll = self.loop_agent_scroll.saturating_add(1);
                if self.loop_agent_scroll >= self.loop_agent_max_scroll {
                    self.loop_agent_auto_scroll = true;
                }
            },
        }
    }

    /// Handles a quit key press during loop execution; `within_window`
    /// tells whether the previous press was less than
    /// [`FORCE_QUIT_WINDOW_SECS`] seconds ago. Presses within the window
    /// count together; one outside it starts counting anew.
    pub fn handle_quit_press(&mut self, within_window: bool) -> (a: ForceQuitAction)
        requires
            old(self).quit_press_count < usize::MAX,
        ensures
            !old(self).loop_state.running ==> a == ForceQuitAction::NavigateBack && *final(self) == *old(self),
            old(self).loop_state.running ==> {
                let count = if within_window && old(self).quit_pressed { old(self).quit_press_count + 1 } else { 1 };
                &&& *final(self) == (App { quit_press_count: count as usize, quit_pressed: true, ..*old(self) })
                &&& a == quit_action(count as nat)
            },
    {
        if !self.loop_state.running {
            return ForceQuitAction::NavigateBack;
        }
        if within_window && self.quit_pressed {
            self.quit_press_count = self.quit_press_count + 1;
        } else {
            self.quit_press_count = 1;
        }
        self.quit_pressed = true;
        if self.quit_press_count == 1 {
            ForceQuitAction::Graceful
        } else if self.quit_press_count == 2 {
            ForceQuitAction::Hint
        } else {
            ForceQuitAction::ForceQuit
        }
    }

    /// Resets the quit press counter (when navigating away from the loop
    /// screen).
    pub fn reset_quit_counter(&mut self)
        ensures
            *final(self) == (App { quit_press_count: 0, quit_pressed: false, ..*old(self) }),
    {
        self.quit_press_count = 0;
        self.quit_pressed = false;
    }

    /// Returns a message telling how many more quit presses force-quit,
    /// while a graceful stop is pending.
    pub fn force_quit_hint(&self) -> (r: Option<String>)
        ensures
            ({
                let remaining = if self.quit_press_count < 3 { 3 - self.quit_press_count } else { 0 };
                if self.quit_press_count >= 1 && self.loop_state.running && remaining > 0 {
                    r matches Some(s) && s@ == "Press 'q' "@ + crate::text::decimal(remaining as nat)
                        + " more time"@ + (if remaining == 1 { ""@ } else { "s"@ }) + " to force-quit"@
                } else {
                    r is None
                }
            }),
    {
        if self.quit_press_count >= 1 && self.loop_state.running {
            let remaining: usize = if self.quit_press_count < FORCE_QUIT_PRESS_COUNT {
                FORCE_QUIT_PRESS_COUNT - self.quit_press_count
            } else {
                0
            };
            if remaining > 0 {
                let mut s = String::new();
                crate::text::push_str(&mut s, "Press 'q' ");
                let d = crate::text::decimal_string(remaining);
                crate::text::push_str(&mut s, d.as_str());
                crate::text::push_str(&mut s, " more time");
                let ghost head = s@;
                if remaining != 1 {
                    crate::text::push_str(&mut s, "s");
                } else {
                    assert(s@ == head + ""@) by {
                        reveal_strlit("");
                        assert(head + ""@ =~= head);
                    }
                }
                crate::text::push_str(&mut s, " to force-quit");
                Some(s)
            } else {
                None
            }
        } else {
            None
        }
    }

    /// Clears the loop state, back to no loop and no story selected.
    pub fn cleanup_loop(&mut self)
        ensures
            !final(self).loop_state.running,
            final(self).loop_state.change_name@.len() == 0,
            final(self).loop_state.current_story_id is None,
            final(self).loop_state.total_stories == 0,
            final(self).loop_state.completed_stories == 0,
            final(self).loop_state.started_story_ids@.len() == 0,
            final(self).loop_selected_story == 0,
            final(self).loop_tab == LoopTab::Info,
            final(self).loop_info_scroll == 0,
            final(self).loop_agent_scroll == 0,
            final(self).loop_agent_auto_scroll,
            final(self).loop_agent_max_scroll == 0,
            final(self).screen == old(self).screen,
            selection_ok(*final(self)),
    {
        self.loop_state = LoopState::new("");
        proof {
            reveal_strlit("");
        }
        self.loop_selected_story = 0;
        self.loop_tab = LoopTab::Info;
        self.loop_info_scroll = 0;
        self.loop_agent_scroll = 0;
        self.loop_agent_auto_scroll = true;
        self.loop_agent_max_scroll = 0;
    }

    // ------------------------------------------------------------------
    // Completion and results
    // ------------------------------------------------------------------

    /// How the loop screen ends, if it does: once the loop reported that it
    /// completed, on the story it gave up on if there is one, else in
    /// success; once it stopped without completing and its thread finished,
    /// by the user's stop; otherwise the loop screen stays.
    pub fn loop_end_reason(&self, completed: bool, thread_finished: bool) -> (r: Option<
        CompletionReason,
    >)
        ensures
            completed ==> match self.max_retries_exceeded_story {
                Some(id) => r matches Some(CompletionReason::MaxRetries { story_id }) && story_id@
                    == id@,
                None => r == Some(CompletionReason::Success),
            },
            !completed ==> r == (if !self.loop_state.running && thread_finished {
                Some(CompletionReason::UserStop)
            } else {
                None
            }),
    {
        if completed {
            match &self.max_retries_exceeded_story {
                Some(id) => Some(CompletionReason::MaxRetries { story_id: id.clone() }),
                None => Some(CompletionReason::Success),
            }
        } else if !self.loop_state.running && thread_finished {
            Some(CompletionReason::UserStop)
        } else {
            None
        }
    }

    /// Shows the completion screen for the way the loop ended.
    pub fn show_completion_screen(&mut self, reason: CompletionReason, original_branch: String, ralph_branch: String)
        ensures
            final(self).screen == Screen::LoopCompletion,
            final(self).completion_data.completion_reason == reason,
            final(self).completion_data.original_branch@ == original_branch@,
            final(self).completion_data.ralph_branch@ == ralph_branch@,
            final(self).completion_data.stories_completed == old(self).loop_state.completed_stories,
            final(self).completion_data.stories_total == old(self).loop_state.total_stories,
            final(self).completion_data.selected_option == 0,
            !final(self).completion_data.in_progress,
            final(self).completion_data.progress_message is None,
    {
        self.completion_data = CompletionData {
            stories_completed: self.loop_state.completed_stories,
            stories_total: self.loop_state.total_stories,
            original_branch,
            ralph_branch,
            selected_option: 0,
            in_progress: false,
            progress_message: None,
            completion_reason: reason,
        };
        self.screen = Screen::LoopCompletion;
    }

    /// Transitions to the result screen with the given result.
    pub fn show_loop_result(&mut self, result: LoopResult)
        ensures
            final(self).screen == Screen::LoopResult,
            final(self).loop_result == result,
            final(self).result_scroll_offset == 0,
            final(self).result_tab == ResultTab::Tasks,
            final(self).result_tasks_scroll == 0,
    {
        self.loop_result = result;
        self.result_scroll_offset = 0;
        self.result_tab = ResultTab::Tasks;
        self.result_tasks_scroll = 0;
        self.screen = Screen::LoopResult;
    }

    /// Switches between the Tasks and Changed Files tabs of the result
    /// screen; each keeps its own scroll position.
    pub fn switch_result_tab(&mut self)
        ensures
            *final(self) == (App { result_tab: other_result_tab(old(self).result_tab), ..*old(self) }),
    {
        self.result_tab = match self.result_tab {
            ResultTab::Tasks => ResultTab::ChangedFiles,
            ResultTab::ChangedFiles => ResultTab::Tasks,
        };
    }

    /// Scrolls up in the Tasks tab of the result screen.
    pub fn result_tasks_scroll_up(&mut self)
        ensures
            *final(self) == (App { result_tasks_scroll: scrolled(old(self).result_tasks_scroll, 1, true), ..*old(self) }),
    {
        self.result_tasks_scroll = self.result_tasks_scroll.saturating_sub(1);
    }

    /// Scrolls down in the Tasks tab of the result screen.
    pub fn result_tasks_scroll_down(&mut self)
        ensures
            *final(self) == (App { result_tasks_scroll: scrolled(old(self).result_tasks_scroll, 1, false), ..*old(self) }),
    {
        self.result_tasks_scroll = self.result_tasks_scroll.saturating_add(1);
    }

    /// Scrolls up in the active tab of the result screen.
    pub fn result_scroll_up(&mut self)
        ensures
            *final(self) == match old(self).result_tab {
                ResultTab::Tasks => App { result_tasks_scroll: scrolled(old(self).result_tasks_scroll, 1, true), ..*old(self) },
                ResultTab::ChangedFiles => App {
                    result_scroll_offset: scrolled(old(self).result_scroll_offset, 1, true),
                    ..*old(self)
                },
            },
    {
        match self.result_tab {
            ResultTab::Tasks => self.result_tasks_scroll = self.result_tasks_scroll.saturating_sub(1),
            ResultTab::ChangedFiles => self.result_scroll_offset = self.result_scroll_offset.saturating_sub(1),
        }
    }

    /// Scrolls down in the active tab of the result screen.
    pub fn result_scroll_down(&mut self)
        ensures
            *final(self) == match old(self).result_tab {
                ResultTab::Tasks => App { result_tasks_scroll: scrolled(old(self).result_tasks_scroll, 1, false), ..*old(self) },
                ResultTab::ChangedFiles => App {
                    result_scroll_offset: scrolled(old(self).result_scroll_offset, 1, false),
                    ..*old(self)
                },
            },
    {
        match self.result_tab {
            ResultTab::Tasks => self.result_tasks_scroll = self.result_tasks_scroll.saturating_add(1),
            ResultTab::ChangedFiles => self.result_scroll_offset = self.result_scroll_offset.saturating_add(1),
        }
    }
}

/// The sliding window of story indicators always shows the selected story
/// when it is one of the started stories, and never reaches past them.
pub proof fn law_window_shows_selected(count: nat, selected: nat)
    requires
        selected < count,
    ensures
        window_start(count, selected) <= selected < window_start(count, selected) + window_len(count),
        window_start(count, selected) + window_len(count) <= count,
{
}

/// Three quick quit presses while the loop runs escalate from a graceful
/// stop to a hint to a force-quit.
pub proof fn law_quit_escalation()
    ensures
        quit_action(1) == ForceQuitAction::Graceful,
        quit_action(2) == ForceQuitAction::Hint,
        forall|n: nat| n >= 3 ==> quit_action(n) == ForceQuitAction::ForceQuit,
{
}

/// Scrolling the preview down and then up by the same amount returns to
/// where it was, when the way down did not reach the largest offset.
pub proof fn law_preview_scroll_round_trip(a: App, delta: usize)
    requires
        (match a.active_tab {
            PreviewTab::Tasks => a.tasks_scroll_offset + delta <= usize::MAX,
            PreviewTab::Scenarios => a.scenarios_scroll_offset + delta <= usize::MAX,
        }),
    ensures
        preview_scrolled(preview_scrolled(a, delta, false), delta, true) == a,
{
}

/// Switching a tab twice brings back the tab it started from, on every
/// screen with tabs.
pub proof fn law_tab_switch_round_trip(p: PreviewTab, l: LoopTab, r: ResultTab)
    ensures
        other_preview_tab(other_preview_tab(p)) == p,
        other_loop_tab(other_loop_tab(l)) == l,
        other_result_tab(other_result_tab(r)) == r,
{
}

/// Moving the change selection down and then up returns to the change it
/// started from, wrapping at either end.
pub proof fn law_selection_round_trip(i: usize, n: nat)
    requires
        i < n,
        n <= usize::MAX,
    ensures
        previous_index(next_index(i, n), n) == i,
        next_index(previous_index(i, n), n) == i,
{
    if i + 1 < n {
        assert((i + 1) % (n as int) == i + 1) by (nonlinear_arith)
            requires
                0 <= i + 1 < n,
        ;
    } else {
        assert((i + 1) % (n as int) == 0) by (nonlinear_arith)
            requires
                i + 1 == n,
                n > 0,
        ;
    }
    if i == 0 {
        assert(((n - 1) + 1) % (n as int) == 0) by (nonlinear_arith)
            requires
                n > 0,
        ;
    } else {
        assert((i as int) % (n as int) == i) by (nonlinear_arith)
            requires
                0 <= i < n,
        ;
    }
}

} // verus!
