//! What the screens show: the text of each part of a screen as lines of
//! segments, each shown in one tone. Drawing them is left to the terminal
//! front end.

use vstd::prelude::*;

use crate::app::{window_len, window_start, with_capability, App};
use crate::spec::openspec::find_story;
use crate::spec::types::{scenarios_view, stories_view, Scenario, ScenarioView, Story, StoryView, Task, TaskView};
use crate::text::{
    chars_of, decimal, decimal_string, insert_sorted, lemma_is_sorted_unique, lines, lines_of, sorted_unique,
    str_eq, strictly_sorted, string_of, strs, trim, trim_chars, views,
};

verus! {

/// How a segment of text is shown.
#[derive(Debug, Clone, Copy, PartialEq, Eq, Structural)]
pub enum Tone {
    /// Default look.
    Plain,
    /// Bold.
    Bold,
    /// Yellow.
    Yellow,
    /// Yellow and bold.
    YellowBold,
    /// Cyan.
    Cyan,
    /// Magenta.
    Magenta,
    /// Blue.
    Blue,
    /// Blue and bold.
    BlueBold,
    /// Green.
    Green,
    /// Green and bold.
    GreenBold,
    /// Dark gray, for secondary text.
    DarkGray,
    /// White.
    White,
    /// Underlined.
    Underlined,
    /// Green and underlined.
    GreenUnderlined,
}

/// A run of text shown in one tone.
#[derive(Debug, Clone)]
pub struct Segment {
    /// The text.
    pub text: String,
    /// How it is shown.
    pub tone: Tone,
}

/// One line of a screen, as segments from left to right.
#[derive(Debug, Clone)]
pub struct ScreenLine {
    /// The segments.
    pub segments: Vec<Segment>,
}

/// Abstract value of a line: its segments as text and tone.
pub type LineView = Seq<(Seq<char>, Tone)>;

impl View for ScreenLine {
    type V = LineView;

    open spec fn view(&self) -> LineView {
        self.segments@.map_values(|s: Segment| (s.text@, s.tone))
    }
}

/// The views of a sequence of lines.
pub open spec fn lines_view(v: Seq<ScreenLine>) -> Seq<LineView> {
    v.map_values(|l: ScreenLine| l@)
}

fn new_line() -> (l: ScreenLine)
    ensures
        l@ == Seq::<(Seq<char>, Tone)>::empty(),
{
    let l = ScreenLine { segments: Vec::new() };
    assert(l@ =~= Seq::<(Seq<char>, Tone)>::empty());
    l
}

fn add_seg(l: &mut ScreenLine, text: String, tone: Tone)
    ensures
        final(l)@ == old(l)@.push((text@, tone)),
{
    let ghost before = l@;
    l.segments.push(Segment { text, tone });
    assert(l@ =~= before.push((text@, tone)));
}

fn one_seg(text: &str, tone: Tone) -> (l: ScreenLine)
    ensures
        l@ == seq![(text@, tone)],
{
    let mut l = new_line();
    add_seg(&mut l, text.to_owned(), tone);
    l
}

fn push_line(out: &mut Vec<ScreenLine>, l: ScreenLine)
    ensures
        lines_view(final(out)@) == lines_view(old(out)@).push(l@),
{
    let ghost before = lines_view(out@);
    out.push(l);
    assert(lines_view(out@) =~= before.push(l@));
}

// ---------------------------------------------------------------------------
// Blank-line compression of agent output
// ---------------------------------------------------------------------------

/// A line with nothing but whitespace.
pub open spec fn is_blank(l: Seq<char>) -> bool {
    trim(l).len() == 0
}

/// The lines with each run of blank lines shortened to one blank line.
pub open spec fn compress(ls: Seq<Seq<char>>) -> Seq<Seq<char>>
    decreases ls.len(),
{
    if ls.len() == 0 {
        Seq::empty()
    } else {
        let c = compress(ls.drop_last());
        if is_blank(ls.last()) && c.len() > 0 && is_blank(c.last()) {
            c
        } else {
            c.push(ls.last())
        }
    }
}

/// Indented lines of text in one tone.
pub open spec fn indented(ls: Seq<Seq<char>>, tone: Tone) -> Seq<LineView> {
    ls.map_values(|l: Seq<char>| seq![("  "@, Tone::Plain), (l, tone)])
}

/// An agent message: an "Assistant:" label, then the message's lines,
/// indented, with runs of blank lines shortened.
pub open spec fn message_block(text: Seq<char>) -> Seq<LineView> {
    seq![seq![("Assistant:"@, Tone::BlueBold)]] + indented(compress(lines(text)), Tone::Plain)
}

/// The agent's final response: a "Done:" label, the response's lines
/// (indented, runs of blank lines shortened; a note when there are none),
/// and the usage line.
pub open spec fn done_block(content: Seq<char>, stats: Seq<char>) -> Seq<LineView> {
    seq![seq![("Done:"@, Tone::GreenBold)]] + (if lines(content).len() == 0 {
        seq![seq![("  "@, Tone::Plain), ("(no content)"@, Tone::DarkGray)]]
    } else {
        indented(compress(lines(content)), Tone::Green)
    }) + seq![seq![("  "@, Tone::Plain), (stats, Tone::Yellow)]]
}

fn is_blank_chars(l: &[char]) -> (b: bool)
    ensures
        b == is_blank(l@),
{
    trim_chars(l).len() == 0
}

/// Appends the lines of a text, indented and compressed, to `out`.
fn push_compressed(out: &mut Vec<ScreenLine>, text: &str, tone: Tone)
    ensures
        lines_view(final(out)@) == lines_view(old(out)@) + indented(compress(lines(text@)), tone),
{
    let v = chars_of(text);
    let ls = lines_of(&v);
    let ghost all = views(ls@);
    let ghost base = lines_view(out@);
    let mut prev_blank = false;
    let mut i: usize = 0;
    while i < ls.len()
        invariant
            i <= ls@.len(),
            all == views(ls@),
            all == lines(text@),
            lines_view(out@) == base + indented(compress(all.take(i as int)), tone),
            prev_blank == (compress(all.take(i as int)).len() > 0 && is_blank(
                compress(all.take(i as int)).last(),
            )),
        decreases ls@.len() - i,
    {
        let ghost c = compress(all.take(i as int));
        assert(all.take(i + 1).drop_last() =~= all.take(i as int));
        assert(all.take(i + 1).last() == ls@[i as int]@);
        let blank = is_blank_chars(&ls[i]);
        if blank && prev_blank {
            assert(compress(all.take(i + 1)) == c);
        } else {
            let mut l = new_line();
            add_seg(&mut l, "  ".to_owned(), Tone::Plain);
            add_seg(&mut l, string_of(&ls[i]), tone);
            assert(l@ =~= seq![("  "@, Tone::Plain), (ls@[i as int]@, tone)]);
            push_line(out, l);
            assert(compress(all.take(i + 1)) == c.push(ls@[i as int]@));
            assert(indented(c.push(ls@[i as int]@), tone) =~= indented(c, tone).push(l@));
        }
        prev_blank = blank;
        i += 1;
    }
    assert(all.take(ls@.len() as int) =~= all);
}

/// The lines of an agent message.
pub fn message_lines(text: &str) -> (r: Vec<ScreenLine>)
    ensures
        lines_view(r@) == message_block(text@),
{
    let mut r: Vec<ScreenLine> = Vec::new();
    push_line(&mut r, one_seg("Assistant:", Tone::BlueBold));
    push_compressed(&mut r, text, Tone::Plain);
    assert(lines_view(r@) =~= message_block(text@));
    r
}

/// The lines of the agent's final response, with its usage line.
pub fn done_lines(content: &str, stats: &str) -> (r: Vec<ScreenLine>)
    ensures
        lines_view(r@) == done_block(content@, stats@),
{
    let mut r: Vec<ScreenLine> = Vec::new();
    push_line(&mut r, one_seg("Done:", Tone::GreenBold));
    let ghost head = lines_view(r@);
    let v = chars_of(content);
    let ls = lines_of(&v);
    assert(views(ls@).len() == ls@.len());
    if ls.len() == 0 {
        let mut l = new_line();
        add_seg(&mut l, "  ".to_owned(), Tone::Plain);
        add_seg(&mut l, "(no content)".to_owned(), Tone::DarkGray);
        assert(l@ =~= seq![("  "@, Tone::Plain), ("(no content)"@, Tone::DarkGray)]);
        push_line(&mut r, l);
    } else {
        push_compressed(&mut r, content, Tone::Green);
    }
    let ghost mid = lines_view(r@);
    let mut l = new_line();
    add_seg(&mut l, "  ".to_owned(), Tone::Plain);
    add_seg(&mut l, stats.to_owned(), Tone::Yellow);
    assert(l@ =~= seq![("  "@, Tone::Plain), (stats@, Tone::Yellow)]);
    push_line(&mut r, l);
    assert(lines_view(r@) =~= done_block(content@, stats@));
    r
}

// ---------------------------------------------------------------------------
// Agent tab
// ---------------------------------------------------------------------------

/// What the agent produced for a story, in order.
#[derive(Debug, Clone)]
pub enum AgentEntry {
    /// An intermediate message.
    Message(String),
    /// The final response, with its usage line.
    Done { content: String, stats: String },
}

/// The lines of one entry.
pub open spec fn entry_block(e: AgentEntry) -> Seq<LineView> {
    match e {
        AgentEntry::Message(t) => message_block(t@),
        AgentEntry::Done { content, stats } => done_block(content@, stats@),
    }
}

/// The entries' lines, two blank lines between consecutive entries.
pub open spec fn joined_entries(es: Seq<AgentEntry>) -> Seq<LineView>
    decreases es.len(),
{
    if es.len() == 0 {
        Seq::empty()
    } else if es.len() == 1 {
        entry_block(es[0])
    } else {
        joined_entries(es.drop_last()) + seq![Seq::empty(), Seq::empty()] + entry_block(es.last())
    }
}

/// The agent tab: the entries of the selected story, or a note when there
/// are none.
pub open spec fn agent_tab(es: Seq<AgentEntry>) -> Seq<LineView> {
    if es.len() == 0 {
        seq![seq![("No agent messages yet"@, Tone::DarkGray)]]
    } else {
        joined_entries(es)
    }
}

fn append_lines(out: &mut Vec<ScreenLine>, more: Vec<ScreenLine>)
    ensures
        lines_view(final(out)@) == lines_view(old(out)@) + lines_view(more@),
{
    let ghost a = out@;
    let ghost b = more@;
    let mut more = more;
    out.append(&mut more);
    assert(lines_view(a + b) =~= lines_view(a) + lines_view(b));
}

/// The lines of the agent tab for the selected story's entries.
pub fn agent_tab_lines(entries: &Vec<AgentEntry>) -> (r: Vec<ScreenLine>)
    ensures
        lines_view(r@) == agent_tab(entries@),
{
    if entries.len() == 0 {
        let mut r: Vec<ScreenLine> = Vec::new();
        push_line(&mut r, one_seg("No agent messages yet", Tone::DarkGray));
        assert(lines_view(r@) =~= agent_tab(entries@));
        return r;
    }
    let mut r: Vec<ScreenLine> = Vec::new();
    let mut i: usize = 0;
    while i < entries.len()
        invariant
            i <= entries@.len(),
            lines_view(r@) == joined_entries(entries@.take(i as int)),
        decreases entries@.len() - i,
    {
        let ghost before = lines_view(r@);
        if i > 0 {
            push_line(&mut r, new_line());
            push_line(&mut r, new_line());
        }
        let block = match &entries[i] {
            AgentEntry::Message(t) => message_lines(t.as_str()),
            AgentEntry::Done { content, stats } => done_lines(content.as_str(), stats.as_str()),
        };
        append_lines(&mut r, block);
        proof {
            let t = entries@.take(i + 1);
            assert(t.drop_last() =~= entries@.take(i as int));
            assert(t.last() == entries@[i as int]);
            if i == 0 {
                assert(lines_view(r@) =~= entry_block(t[0]));
            } else {
                assert(lines_view(r@) =~= before + seq![Seq::empty(), Seq::empty()] + entry_block(
                    t.last(),
                ));
            }
        }
        i += 1;
    }
    assert(entries@.take(entries@.len() as int) =~= entries@);
    r
}

// ---------------------------------------------------------------------------
// Story indicator
// ---------------------------------------------------------------------------

/// The tone of a story's number: green while it is the one being worked
/// on and has not finished, underlined when it is the selected one.
pub open spec fn number_tone(current: bool, selected: bool) -> Tone {
    if current && selected {
        Tone::GreenUnderlined
    } else if current {
        Tone::Green
    } else if selected {
        Tone::Underlined
    } else {
        Tone::Plain
    }
}

/// Whether the story at index `idx` is the one being worked on and has
/// not finished.
pub open spec fn in_progress(started: Seq<Seq<char>>, idx: int, current: Option<Seq<char>>, finished: Seq<bool>) -> bool {
    current == Some(started[idx]) && !finished[idx]
}

/// The numbers of the first `n` shown stories from `start` on (1-based),
/// separated by spaces.
pub open spec fn number_segments(
    started: Seq<Seq<char>>,
    start: nat,
    n: nat,
    selected: nat,
    current: Option<Seq<char>>,
    finished: Seq<bool>,
) -> LineView
    decreases n,
{
    if n == 0 {
        Seq::empty()
    } else {
        let idx = start + n - 1;
        number_segments(started, start, (n - 1) as nat, selected, current, finished) + (if n > 1 {
            seq![(" "@, Tone::Plain)]
        } else {
            Seq::empty()
        }) + seq![(decimal((idx + 1) as nat), number_tone(in_progress(started, idx, current, finished), idx == selected))]
    }
}

/// The story indicator: the numbers of the started stories in the shown
/// window, with dots where stories lie beyond it on either side.
pub open spec fn indicator(
    started: Seq<Seq<char>>,
    selected: nat,
    current: Option<Seq<char>>,
    finished: Seq<bool>,
) -> LineView {
    if started.len() == 0 {
        seq![(" Stories: (none started)"@, Tone::DarkGray)]
    } else {
        let start = window_start(started.len(), selected);
        let n = window_len(started.len());
        seq![(" Stories: "@, Tone::Plain)] + (if start > 0 {
            seq![("... "@, Tone::DarkGray)]
        } else {
            Seq::empty()
        }) + number_segments(started, start, n, selected, current, finished) + (if start + 5
            < started.len() {
            seq![(" ..."@, Tone::DarkGray)]
        } else {
            Seq::empty()
        })
    }
}

/// The current story id of the loop, by its view.
pub open spec fn current_id(app: App) -> Option<Seq<char>> {
    match app.loop_state.current_story_id {
        Some(s) => Some(s@),
        None => None,
    }
}

/// The line of the story indicator; `finished[k]` tells whether the k-th
/// started story has finished.
pub fn story_indicator(app: &App, finished: &Vec<bool>) -> (r: ScreenLine)
    requires
        finished@.len() == app.loop_state.started_story_ids@.len(),
    ensures
        r@ == indicator(
            strs(app.loop_state.started_story_ids@),
            app.loop_selected_story as nat,
            current_id(*app),
            finished@,
        ),
{
    let started = &app.loop_state.started_story_ids;
    let ghost sv = strs(started@);
    if started.len() == 0 {
        return one_seg(" Stories: (none started)", Tone::DarkGray);
    }
    let (start, end) = app.visible_story_range();
    let selected = app.loop_selected_story;
    let mut l = new_line();
    add_seg(&mut l, " Stories: ".to_owned(), Tone::Plain);
    if start > 0 {
        add_seg(&mut l, "... ".to_owned(), Tone::DarkGray);
    }
    let ghost head = l@;
    let mut k: usize = start;
    while k < end
        invariant
            start <= k <= end,
            end <= started@.len(),
            sv == strs(started@),
            finished@.len() == started@.len(),
            selected == app.loop_selected_story,
            l@ == head + number_segments(sv, start as nat, (k - start) as nat, selected as nat, current_id(*app), finished@),
        decreases end - k,
    {
        if k > start {
            add_seg(&mut l, " ".to_owned(), Tone::Plain);
        }
        let is_current = match &app.loop_state.current_story_id {
            Some(c) => str_eq(c.as_str(), started[k].as_str()),
            None => false,
        } && !finished[k];
        let is_selected = k == selected;
        let tone = if is_current && is_selected {
            Tone::GreenUnderlined
        } else if is_current {
            Tone::Green
        } else if is_selected {
            Tone::Underlined
        } else {
            Tone::Plain
        };
        proof {
            assert(sv[k as int] == started@[k as int]@);
            assert(is_current == in_progress(sv, k as int, current_id(*app), finished@));
        }
        add_seg(&mut l, decimal_string(k + 1), tone);
        assert(l@ =~= head + number_segments(sv, start as nat, (k + 1 - start) as nat, selected as nat, current_id(*app), finished@));
        k += 1;
    }
    if start + 5 < started.len() {
        add_seg(&mut l, " ...".to_owned(), Tone::DarkGray);
    }
    assert(l@ =~= indicator(sv, selected as nat, current_id(*app), finished@));
    l
}

// ---------------------------------------------------------------------------
// Info tab of the loop screen
// ---------------------------------------------------------------------------

/// The two lines of a task in the info tab: its check box and id, then its
/// description, dimmed once done.
pub open spec fn info_task(t: TaskView) -> Seq<LineView> {
    seq![
        seq![
            ("  "@, Tone::Plain),
            (if t.done { "☑"@ } else { "☐"@ }, if t.done { Tone::Green } else { Tone::DarkGray }),
            (" "@, Tone::Plain),
            (t.id, Tone::DarkGray),
        ],
        seq![("    "@, Tone::Plain), (t.description, if t.done { Tone::DarkGray } else { Tone::Plain })],
    ]
}

/// The info lines of the tasks, in order.
pub open spec fn info_tasks(ts: Seq<TaskView>) -> Seq<LineView>
    decreases ts.len(),
{
    if ts.len() == 0 {
        Seq::empty()
    } else {
        info_tasks(ts.drop_last()) + info_task(ts.last())
    }
}

/// The story whose id the loop screen has selected, if any.
pub open spec fn selected_story_id(app: App) -> Option<Seq<char>> {
    if app.loop_selected_story < app.loop_state.started_story_ids@.len() {
        Some(app.loop_state.started_story_ids@[app.loop_selected_story as int]@)
    } else {
        None
    }
}

/// The info tab: the selected story (the first loaded story with its id)
/// with its tasks; its id alone when no loaded story has it; a note when
/// no story is selected.
pub open spec fn info_tab(stories: Seq<StoryView>, selected: Option<Seq<char>>) -> Seq<LineView> {
    match selected {
        None => seq![seq![("No story selected"@, Tone::DarkGray)]],
        Some(id) => match find_story(stories, id) {
            Some(i) => seq![
                seq![
                    ("Story "@, Tone::Yellow),
                    (stories[i].id, Tone::YellowBold),
                    (": "@, Tone::Yellow),
                    (stories[i].title, Tone::Bold),
                ],
                Seq::empty(),
            ] + info_tasks(stories[i].tasks),
            None => seq![
                seq![("Story ID: "@, Tone::Yellow), (id, Tone::Bold)],
                Seq::empty(),
                seq![("(Story details not available)"@, Tone::DarkGray)],
            ],
        },
    }
}

/// Index of the first story with the given id.
fn find_story_in(stories: &Vec<Story>, id: &str) -> (r: Option<usize>)
    ensures
        match r {
            Some(i) => find_story(stories_view(stories@), id@) == Some(i as int) && i < stories@.len(),
            None => find_story(stories_view(stories@), id@) is None,
        },
{
    let ghost sv = stories_view(stories@);
    let mut i: usize = 0;
    while i < stories.len()
        invariant
            i <= stories@.len(),
            sv == stories_view(stories@),
            find_story(sv.take(i as int), id@) is None,
        decreases stories@.len() - i,
    {
        assert(sv.take(i + 1).drop_last() =~= sv.take(i as int));
        if str_eq(stories[i].id.as_str(), id) {
            proof {
                crate::agent::tasks::lemma_prefix_match(sv, id@, i + 1);
            }
            return Some(i);
        }
        i += 1;
    }
    assert(sv.take(stories@.len() as int) == sv);
    None
}

fn push_info_tasks(out: &mut Vec<ScreenLine>, tasks: &Vec<Task>)
    ensures
        lines_view(final(out)@) == lines_view(old(out)@) + info_tasks(tasks@.map_values(|t: Task| t@)),
{
    let ghost tv = tasks@.map_values(|t: Task| t@);
    let ghost base = lines_view(out@);
    let mut j: usize = 0;
    while j < tasks.len()
        invariant
            j <= tasks@.len(),
            tv == tasks@.map_values(|t: Task| t@),
            lines_view(out@) == base + info_tasks(tv.take(j as int)),
        decreases tasks@.len() - j,
    {
        let t = &tasks[j];
        let mut a = new_line();
        add_seg(&mut a, "  ".to_owned(), Tone::Plain);
        if t.done {
            add_seg(&mut a, "☑".to_owned(), Tone::Green);
        } else {
            add_seg(&mut a, "☐".to_owned(), Tone::DarkGray);
        }
        add_seg(&mut a, " ".to_owned(), Tone::Plain);
        add_seg(&mut a, t.id.clone(), Tone::DarkGray);
        let mut b = new_line();
        add_seg(&mut b, "    ".to_owned(), Tone::Plain);
        add_seg(&mut b, t.description.clone(), if t.done { Tone::DarkGray } else { Tone::Plain });
        let ghost before = lines_view(out@);
        push_line(out, a);
        push_line(out, b);
        proof {
            assert(tv.take(j + 1).drop_last() =~= tv.take(j as int));
            assert(tv.take(j + 1).last() == tv[j as int]);
            assert(tv[j as int] == t@);
            assert(a@ =~= info_task(tv[j as int])[0]);
            assert(b@ =~= info_task(tv[j as int])[1]);
            assert(info_task(tv[j as int]) =~= seq![a@, b@]);
            assert(lines_view(out@) =~= before + info_task(tv[j as int]));
        }
        j += 1;
    }
    assert(tv.take(tasks@.len() as int) =~= tv);
}

/// The lines of the info tab of the loop screen.
pub fn info_tab_lines(app: &App) -> (r: Vec<ScreenLine>)
    ensures
        lines_view(r@) == info_tab(stories_view(app.stories@), selected_story_id(*app)),
{
    let ghost sv = stories_view(app.stories@);
    let ghost want = info_tab(sv, selected_story_id(*app));
    let mut r: Vec<ScreenLine> = Vec::new();
    match app.current_story() {
        None => {
            push_line(&mut r, one_seg("No story selected", Tone::DarkGray));
            assert(lines_view(r@) =~= want);
        },
        Some(id) => {
            match find_story_in(&app.stories, id) {
                Some(i) => {
                    let s = &app.stories[i];
                    assert(stories_view(app.stories@)[i as int] == s@);
                    let mut h = new_line();
                    add_seg(&mut h, "Story ".to_owned(), Tone::Yellow);
                    add_seg(&mut h, s.id.clone(), Tone::YellowBold);
                    add_seg(&mut h, ": ".to_owned(), Tone::Yellow);
                    add_seg(&mut h, s.title.clone(), Tone::Bold);
                    assert(h@ =~= want[0]);
                    push_line(&mut r, h);
                    push_line(&mut r, new_line());
                    assert(lines_view(r@) =~= want.take(2));
                    push_info_tasks(&mut r, &s.tasks);
                    assert(lines_view(r@) =~= want);
                },
                None => {
                    let mut h = new_line();
                    add_seg(&mut h, "Story ID: ".to_owned(), Tone::Yellow);
                    add_seg(&mut h, id.to_owned(), Tone::Bold);
                    assert(h@ =~= want[0]);
                    push_line(&mut r, h);
                    push_line(&mut r, new_line());
                    push_line(&mut r, one_seg("(Story details not available)", Tone::DarkGray));
                    assert(lines_view(r@) =~= want);
                },
            }
        },
    }
    r
}

// ---------------------------------------------------------------------------
// Preview screen
// ---------------------------------------------------------------------------

/// A task in the preview: its check box, id and description.
pub open spec fn preview_task(t: TaskView) -> LineView {
    seq![
        ("    "@, Tone::Plain),
        (if t.done { "[x]"@ } else { "[ ]"@ }, if t.done { Tone::Green } else { Tone::Plain }),
        (" "@, Tone::Plain),
        (t.id, Tone::DarkGray),
        (" "@, Tone::Plain),
        (t.description, Tone::Plain),
    ]
}

/// A story in the preview: its header, its tasks, and a blank line.
pub open spec fn preview_story(s: StoryView) -> Seq<LineView> {
    seq![seq![("▸ "@, Tone::Yellow), ("Story "@ + s.id + ": "@ + s.title, Tone::Bold)]]
        + s.tasks.map_values(|t: TaskView| preview_task(t)) + seq![Seq::empty()]
}

/// The tasks tab of the preview: each story in order.
pub open spec fn preview_tasks(ss: Seq<StoryView>) -> Seq<LineView>
    decreases ss.len(),
{
    if ss.len() == 0 {
        Seq::empty()
    } else {
        preview_tasks(ss.drop_last()) + preview_story(ss.last())
    }
}

/// The lines of the tasks tab of the preview.
pub fn preview_task_lines(stories: &Vec<Story>) -> (r: Vec<ScreenLine>)
    ensures
        lines_view(r@) == preview_tasks(stories_view(stories@)),
{
    let ghost sv = stories_view(stories@);
    let mut r: Vec<ScreenLine> = Vec::new();
    let mut i: usize = 0;
    while i < stories.len()
        invariant
            i <= stories@.len(),
            sv == stories_view(stories@),
            lines_view(r@) == preview_tasks(sv.take(i as int)),
        decreases stories@.len() - i,
    {
        let s = &stories[i];
        let ghost before = lines_view(r@);
        let ghost tv = s@.tasks;
        let mut h = new_line();
        add_seg(&mut h, "▸ ".to_owned(), Tone::Yellow);
        add_seg(&mut h, crate::text::concat4("Story ", s.id.as_str(), ": ", s.title.as_str()), Tone::Bold);
        assert(h@ =~= preview_story(s@)[0]);
        push_line(&mut r, h);
        let ghost head = lines_view(r@);
        let mut j: usize = 0;
        while j < s.tasks.len()
            invariant
                j <= s.tasks@.len(),
                tv == s@.tasks,
                lines_view(r@) == head + tv.take(j as int).map_values(|t: TaskView| preview_task(t)),
            decreases s.tasks@.len() - j,
        {
            let t = &s.tasks[j];
            let mut l = new_line();
            add_seg(&mut l, "    ".to_owned(), Tone::Plain);
            if t.done {
                add_seg(&mut l, "[x]".to_owned(), Tone::Green);
            } else {
                add_seg(&mut l, "[ ]".to_owned(), Tone::Plain);
            }
            add_seg(&mut l, " ".to_owned(), Tone::Plain);
            add_seg(&mut l, t.id.clone(), Tone::DarkGray);
            add_seg(&mut l, " ".to_owned(), Tone::Plain);
            add_seg(&mut l, t.description.clone(), Tone::Plain);
            proof {
                assert(tv[j as int] == t@);
                assert(l@ =~= preview_task(tv[j as int]));
            }
            push_line(&mut r, l);
            assert(tv.take(j + 1).map_values(|t: TaskView| preview_task(t)) =~= tv.take(j as int).map_values(
                |t: TaskView| preview_task(t),
            ).push(preview_task(tv[j as int])));
            j += 1;
        }
        push_line(&mut r, new_line());
        proof {
            assert(tv.take(tv.len() as int) =~= tv);
            assert(sv.take(i + 1).drop_last() =~= sv.take(i as int));
            assert(sv.take(i + 1).last() == s@);
            assert(preview_story(s@) =~= seq![h@] + tv.map_values(|t: TaskView| preview_task(t)) + seq![
                Seq::<(Seq<char>, Tone)>::empty(),
            ]);
            assert(lines_view(r@) =~= before + preview_story(s@));
        }
        i += 1;
    }
    assert(sv.take(stories@.len() as int) =~= sv);
    r
}

// ---------------------------------------------------------------------------
// Scenarios tab of the preview
// ---------------------------------------------------------------------------

/// A step line of a scenario: its keyword and text.
pub open spec fn step_line(keyword: Seq<char>, tone: Tone, text: Seq<char>) -> LineView {
    seq![("            "@, Tone::Plain), (keyword, tone), (text, Tone::Plain)]
}

/// A scenario: its name, its GIVEN steps, its WHEN step where it has one,
/// and its THEN steps.
pub open spec fn scenario_entry(s: ScenarioView) -> Seq<LineView> {
    seq![seq![("        "@, Tone::Plain), ("◦ "@, Tone::Magenta), (s.name, Tone::Cyan)]]
        + s.given.map_values(|g: Seq<char>| step_line("GIVEN "@, Tone::Blue, g))
        + (if s.when.len() > 0 {
        seq![step_line("WHEN "@, Tone::Magenta, s.when)]
    } else {
        Seq::empty()
    }) + s.then_steps.map_values(|t: Seq<char>| step_line("THEN "@, Tone::Green, t))
}

/// The entries of scenarios, in order.
pub open spec fn scenario_entries(scs: Seq<ScenarioView>) -> Seq<LineView>
    decreases scs.len(),
{
    if scs.len() == 0 {
        Seq::empty()
    } else {
        scenario_entries(scs.drop_last()) + scenario_entry(scs.last())
    }
}

/// The scenarios of a requirement, in order.
pub open spec fn with_requirement(scs: Seq<ScenarioView>, req: Seq<char>) -> Seq<ScenarioView> {
    scs.filter(|s: ScenarioView| s.requirement_id == req)
}

/// A requirement: its header, then its scenarios.
pub open spec fn requirement_block(scs: Seq<ScenarioView>, req: Seq<char>) -> Seq<LineView> {
    seq![seq![("    "@, Tone::Plain), ("● "@, Tone::Cyan), (req, Tone::White)]] + scenario_entries(
        with_requirement(scs, req),
    )
}

/// The blocks of the given requirements, in order.
pub open spec fn requirement_blocks(scs: Seq<ScenarioView>, reqs: Seq<Seq<char>>) -> Seq<LineView>
    decreases reqs.len(),
{
    if reqs.len() == 0 {
        Seq::empty()
    } else {
        requirement_blocks(scs, reqs.drop_last()) + requirement_block(scs, reqs.last())
    }
}

/// The requirement ids of scenarios.
pub open spec fn requirement_ids(scs: Seq<ScenarioView>) -> Seq<Seq<char>> {
    scs.map_values(|s: ScenarioView| s.requirement_id)
}

/// The capability ids of scenarios.
pub open spec fn capability_ids(scs: Seq<ScenarioView>) -> Seq<Seq<char>> {
    scs.map_values(|s: ScenarioView| s.capability)
}

/// A capability: its header, its requirements in increasing order, and a
/// blank line; nothing when it has no scenarios.
pub open spec fn capability_block(all: Seq<ScenarioView>, cap: Seq<char>) -> Seq<LineView> {
    let scs = with_capability(all, cap);
    if scs.len() == 0 {
        Seq::empty()
    } else {
        seq![seq![("▸ "@, Tone::Yellow), (cap, Tone::Bold)]] + requirement_blocks(
            scs,
            sorted_unique(requirement_ids(scs)),
        ) + seq![Seq::empty()]
    }
}

/// The blocks of the given capabilities, in order.
pub open spec fn capability_blocks(all: Seq<ScenarioView>, caps: Seq<Seq<char>>) -> Seq<LineView>
    decreases caps.len(),
{
    if caps.len() == 0 {
        Seq::empty()
    } else {
        capability_blocks(all, caps.drop_last()) + capability_block(all, caps.last())
    }
}

/// The scenarios tab: the capabilities in increasing order, each with its
/// requirements in increasing order, each with its scenarios in order.
pub open spec fn scenarios_tab(all: Seq<ScenarioView>) -> Seq<LineView> {
    capability_blocks(all, sorted_unique(capability_ids(all)))
}

fn push_step(out: &mut Vec<ScreenLine>, keyword: &str, tone: Tone, text: &str)
    ensures
        lines_view(final(out)@) == lines_view(old(out)@).push(step_line(keyword@, tone, text@)),
{
    let mut l = new_line();
    add_seg(&mut l, "            ".to_owned(), Tone::Plain);
    add_seg(&mut l, keyword.to_owned(), tone);
    add_seg(&mut l, text.to_owned(), Tone::Plain);
    assert(l@ =~= step_line(keyword@, tone, text@));
    push_line(out, l);
}

fn push_steps(out: &mut Vec<ScreenLine>, keyword: &str, tone: Tone, steps: &Vec<String>)
    ensures
        lines_view(final(out)@) == lines_view(old(out)@) + strs(steps@).map_values(
            |g: Seq<char>| step_line(keyword@, tone, g),
        ),
{
    let ghost base = lines_view(out@);
    let ghost sv = strs(steps@);
    let mut k: usize = 0;
    while k < steps.len()
        invariant
            k <= steps@.len(),
            sv == strs(steps@),
            lines_view(out@) == base + sv.take(k as int).map_values(|g: Seq<char>| step_line(keyword@, tone, g)),
        decreases steps@.len() - k,
    {
        push_step(out, keyword, tone, steps[k].as_str());
        assert(sv.take(k + 1).map_values(|g: Seq<char>| step_line(keyword@, tone, g)) =~= sv.take(
            k as int,
        ).map_values(|g: Seq<char>| step_line(keyword@, tone, g)).push(step_line(keyword@, tone, sv[k as int])));
        k += 1;
    }
    assert(sv.take(steps@.len() as int) =~= sv);
}

fn push_entry(out: &mut Vec<ScreenLine>, s: &Scenario)
    ensures
        lines_view(final(out)@) == lines_view(old(out)@) + scenario_entry(s@),
{
    let ghost base = lines_view(out@);
    let mut l = new_line();
    add_seg(&mut l, "        ".to_owned(), Tone::Plain);
    add_seg(&mut l, "◦ ".to_owned(), Tone::Magenta);
    add_seg(&mut l, s.name.clone(), Tone::Cyan);
    assert(l@ =~= scenario_entry(s@)[0]);
    push_line(out, l);
    let ghost a = lines_view(out@);
    push_steps(out, "GIVEN ", Tone::Blue, &s.given);
    let ghost b = lines_view(out@);
    if chars_of(s.when.as_str()).len() > 0 {
        push_step(out, "WHEN ", Tone::Magenta, s.when.as_str());
    }
    let ghost c = lines_view(out@);
    push_steps(out, "THEN ", Tone::Green, &s.then_steps);
    assert(lines_view(out@) =~= base + scenario_entry(s@));
}

/// Appends the requirement's scenarios among `scs`, in order.
fn push_requirement_entries(out: &mut Vec<ScreenLine>, scs: &Vec<Scenario>, req: &str)
    ensures
        lines_view(final(out)@) == lines_view(old(out)@) + scenario_entries(
            with_requirement(scenarios_view(scs@), req@),
        ),
{
    let ghost base = lines_view(out@);
    let ghost all = scenarios_view(scs@);
    let mut j: usize = 0;
    while j < scs.len()
        invariant
            j <= scs@.len(),
            all == scenarios_view(scs@),
            lines_view(out@) == base + scenario_entries(with_requirement(all.take(j as int), req@)),
        decreases scs@.len() - j,
    {
        proof {
            reveal(Seq::filter);
            assert(all.take(j + 1).drop_last() =~= all.take(j as int));
            assert(all.take(j + 1).last() == scs@[j as int]@);
        }
        let ghost prev = with_requirement(all.take(j as int), req@);
        if str_eq(scs[j].requirement_id.as_str(), req) {
            push_entry(out, &scs[j]);
            assert(with_requirement(all.take(j + 1), req@) == prev.push(scs@[j as int]@));
            assert(prev.push(scs@[j as int]@).drop_last() =~= prev);
        } else {
            assert(with_requirement(all.take(j + 1), req@) == prev);
        }
        j += 1;
    }
    assert(all.take(scs@.len() as int) =~= all);
}

/// The requirement ids of the scenarios, each once, in increasing order.
fn unique_requirements(scs: &Vec<Scenario>) -> (r: Vec<String>)
    ensures
        strs(r@) == sorted_unique(requirement_ids(scenarios_view(scs@))),
{
    let ghost ids = requirement_ids(scenarios_view(scs@));
    let mut r: Vec<String> = Vec::new();
    let mut i: usize = 0;
    while i < scs.len()
        invariant
            i <= scs@.len(),
            ids == requirement_ids(scenarios_view(scs@)),
            strictly_sorted(strs(r@)),
            forall|x: Seq<char>| #[trigger] strs(r@).contains(x) <==> ids.take(i as int).contains(x),
        decreases scs@.len() - i,
    {
        let ghost t0 = ids.take(i as int);
        let ghost t1 = ids.take(i + 1);
        let ghost before = strs(r@);
        assert(forall|x: Seq<char>| #[trigger] before.contains(x) <==> t0.contains(x));
        insert_sorted(&mut r, scs[i].requirement_id.as_str());
        proof {
            assert(t1 =~= t0.push(ids[i as int]));
            assert(ids[i as int] == scs@[i as int].requirement_id@);
            assert forall|x: Seq<char>| #[trigger] strs(r@).contains(x) <==> t1.contains(x) by {
                assert(before.contains(x) <==> t0.contains(x));
                assert(strs(r@).contains(x) <==> (before.contains(x) || x == scs@[i as int].requirement_id@));
                assert(t1[i as int] == ids[i as int]);
                if t0.contains(x) {
                    let k = choose|k: int| 0 <= k < t0.len() && t0[k] == x;
                    assert(t1[k] == x);
                }
                if t1.contains(x) {
                    let k = choose|k: int| 0 <= k < t1.len() && t1[k] == x;
                    if k < t0.len() {
                        assert(t0[k] == x);
                    }
                }
            }
        }
        i += 1;
    }
    assert(ids.take(scs@.len() as int) =~= ids);
    proof {
        lemma_is_sorted_unique(strs(r@), ids);
    }
    r
}

/// The lines of the scenarios tab of the preview.
pub fn scenario_tab_lines(app: &App) -> (r: Vec<ScreenLine>)
    ensures
        lines_view(r@) == scenarios_tab(scenarios_view(app.scenarios@)),
{
    let ghost all = scenarios_view(app.scenarios@);
    let caps = app.unique_capabilities();
    proof {
        assert forall|x: Seq<char>| #[trigger] strs(caps@).contains(x) <==> capability_ids(all).contains(x) by {
            if strs(caps@).contains(x) {
                let k = choose|k: int| 0 <= k < app.scenarios@.len() && (#[trigger] app.scenarios@[k]).capability@ == x;
                assert(capability_ids(all)[k] == x);
            }
            if capability_ids(all).contains(x) {
                let k = choose|k: int| 0 <= k < capability_ids(all).len() && capability_ids(all)[k] == x;
                assert(app.scenarios@[k].capability@ == x);
            }
        }
        lemma_is_sorted_unique(strs(caps@), capability_ids(all));
    }
    let ghost cv = strs(caps@);
    let mut r: Vec<ScreenLine> = Vec::new();
    let mut k: usize = 0;
    while k < caps.len()
        invariant
            k <= caps@.len(),
            cv == strs(caps@),
            all == scenarios_view(app.scenarios@),
            lines_view(r@) == capability_blocks(all, cv.take(k as int)),
        decreases caps@.len() - k,
    {
        let ghost before = lines_view(r@);
        let cap = caps[k].as_str();
        let scs = app.scenarios_for_capability(cap);
        let ghost sv = scenarios_view(scs@);
        if scs.len() > 0 {
            let mut h = new_line();
            add_seg(&mut h, "▸ ".to_owned(), Tone::Yellow);
            add_seg(&mut h, cap.to_owned(), Tone::Bold);
            assert(h@ =~= seq![("▸ "@, Tone::Yellow), (cap@, Tone::Bold)]);
            push_line(&mut r, h);
            let ghost head = lines_view(r@);
            let reqs = unique_requirements(&scs);
            let ghost rv = strs(reqs@);
            let mut q: usize = 0;
            while q < reqs.len()
                invariant
                    q <= reqs@.len(),
                    rv == strs(reqs@),
                    sv == scenarios_view(scs@),
                    lines_view(r@) == head + requirement_blocks(sv, rv.take(q as int)),
                decreases reqs@.len() - q,
            {
                let ghost rb = lines_view(r@);
                let mut l = new_line();
                add_seg(&mut l, "    ".to_owned(), Tone::Plain);
                add_seg(&mut l, "● ".to_owned(), Tone::Cyan);
                add_seg(&mut l, reqs[q].clone(), Tone::White);
                assert(l@ =~= seq![("    "@, Tone::Plain), ("● "@, Tone::Cyan), (rv[q as int], Tone::White)]);
                push_line(&mut r, l);
                push_requirement_entries(&mut r, &scs, reqs[q].as_str());
                proof {
                    assert(rv.take(q + 1).drop_last() =~= rv.take(q as int));
                    assert(rv.take(q + 1).last() == rv[q as int]);
                    assert(lines_view(r@) =~= rb + requirement_block(sv, rv[q as int]));
                }
                q += 1;
            }
            push_line(&mut r, new_line());
            proof {
                assert(rv.take(rv.len() as int) =~= rv);
                assert(lines_view(r@) =~= before + capability_block(all, cv[k as int]));
            }
        } else {
            assert(capability_block(all, cv[k as int]) =~= Seq::<LineView>::empty());
        }
        proof {
            assert(cv.take(k + 1).drop_last() =~= cv.take(k as int));
            assert(cv.take(k + 1).last() == cv[k as int]);
            assert(lines_view(r@) =~= capability_blocks(all, cv.take(k + 1)));
        }
        k += 1;
    }
    assert(cv.take(caps@.len() as int) =~= cv);
    r
}

} // verus!
