//! OpenSpec adapter: parsing of `tasks.md` and requirements files into spec
//! domain types, and the adapter that serves them.

use vstd::prelude::*;

use crate::error::{Error, ErrorView};
use crate::spec::SpecAdapter;
use crate::spec::types::{
    copy_scenarios, copy_stories, scenarios_view, stories_view, tasks_view, Context, ContextView, Scenario,
    ScenarioView, Story, StoryView, Task, TaskView, VerifyCommands,
};
use crate::text::{
    all_ascii_digits, all_ascii_digits_chars, chars_of, lines, lines_of, split_once,
    split_once_chars, starts_with, starts_with_chars, string_of, strip_prefix, strip_prefix_chars,
    trim, trim_chars, trim_start_char, trim_start_char_chars, trim_start_str,
    trim_start_str_chars, views, strs, lowercase, uppercase, alphanumeric, to_lowercase, to_uppercase,
    is_alphanumeric, add_line, add_section, concat3, join, join_strings, str_eq,
};

verus! {

// ============================================================================
// tasks.md
// ============================================================================

/// `"N. Title"` split into a numeric id and a title.
pub open spec fn story_header(text: Seq<char>) -> Option<(Seq<char>, Seq<char>)> {
    match split_once(text, ". "@) {
        Some((a, b)) => if all_ascii_digits(trim(a)) {
            Some((trim(a), trim(b)))
        } else {
            None
        },
        None => None,
    }
}

/// The checkbox of a task line: whether it is ticked, and the text after it.
pub open spec fn checkbox(line: Seq<char>) -> Option<(bool, Seq<char>)> {
    match strip_prefix(line, "- [x] "@) {
        Some(r) => Some((true, r)),
        None => match strip_prefix(line, "- [X] "@) {
            Some(r) => Some((true, r)),
            None => match strip_prefix(line, "- [ ] "@) {
                Some(r) => Some((false, r)),
                None => None,
            },
        },
    }
}

/// `"- [ ] N.M Description"` as a task.
pub open spec fn task_line(line: Seq<char>) -> Option<TaskView> {
    match checkbox(line) {
        None => None,
        Some((done, rest)) => match split_once(rest, " "@) {
            Some((a, b)) => Some(TaskView { id: trim(a), description: trim(b), done }),
            None => Some(TaskView { id: trim(rest), description: Seq::empty(), done }),
        },
    }
}

/// State of the line-by-line scan of `tasks.md`.
pub struct TasksScan {
    pub stories: Seq<StoryView>,
    pub current: Option<StoryView>,
}

/// The finished stories, followed by the open one if any.
pub open spec fn with_current(stories: Seq<StoryView>, current: Option<StoryView>) -> Seq<StoryView> {
    match current {
        Some(c) => stories.push(c),
        None => stories,
    }
}

/// One line of `tasks.md`: a `## N. Title` header closes the open story and
/// opens a new one (or none, if the header is not numbered); a task line
/// adds a task to the open story.
pub open spec fn tasks_step(st: TasksScan, line: Seq<char>) -> TasksScan {
    let t = trim(line);
    match strip_prefix(t, "## "@) {
        Some(rest) => TasksScan {
            stories: with_current(st.stories, st.current),
            current: match story_header(rest) {
                Some((id, title)) => Some(StoryView { id, title, tasks: Seq::empty() }),
                None => None,
            },
        },
        None => match task_line(t) {
            Some(task) => match st.current {
                Some(c) => TasksScan {
                    stories: st.stories,
                    current: Some(StoryView { id: c.id, title: c.title, tasks: c.tasks.push(task) }),
                },
                None => st,
            },
            None => st,
        },
    }
}

/// The scan of a sequence of lines.
pub open spec fn tasks_scan(lines: Seq<Seq<char>>) -> TasksScan
    decreases lines.len(),
{
    if lines.len() == 0 {
        TasksScan { stories: Seq::empty(), current: None }
    } else {
        tasks_step(tasks_scan(lines.drop_last()), lines.last())
    }
}

/// The stories described by a `tasks.md` file.
pub open spec fn parse_tasks(content: Seq<char>) -> Seq<StoryView> {
    let st = tasks_scan(lines(content));
    with_current(st.stories, st.current)
}

/// The numbered `## N. Title` headers among the lines, in order, as (id, title).
pub open spec fn story_headers(lines: Seq<Seq<char>>) -> Seq<(Seq<char>, Seq<char>)>
    decreases lines.len(),
{
    if lines.len() == 0 {
        Seq::empty()
    } else {
        let prev = story_headers(lines.drop_last());
        match strip_prefix(trim(lines.last()), "## "@) {
            Some(rest) => match story_header(rest) {
                Some(h) => prev.push(h),
                None => prev,
            },
            None => prev,
        }
    }
}

/// The stories agree, one for one and in order, with the headers.
pub open spec fn stories_match_headers(s: Seq<StoryView>, h: Seq<(Seq<char>, Seq<char>)>) -> bool {
    &&& s.len() == h.len()
    &&& forall|i: int| 0 <= i < s.len() ==> #[trigger] s[i].id == h[i].0 && s[i].title == h[i].1
}

proof fn lemma_tasks_scan_headers(l: Seq<Seq<char>>)
    ensures
        stories_match_headers(
            with_current(tasks_scan(l).stories, tasks_scan(l).current),
            story_headers(l),
        ),
    decreases l.len(),
{
    if l.len() > 0 {
        lemma_tasks_scan_headers(l.drop_last());
        let st = tasks_scan(l.drop_last());
        let h = story_headers(l.drop_last());
        let before = with_current(st.stories, st.current);
        let after = with_current(tasks_scan(l).stories, tasks_scan(l).current);
        let t = trim(l.last());
        match strip_prefix(t, "## "@) {
            Some(rest) => {
                match story_header(rest) {
                    Some(hd) => {
                        assert(after == before.push(StoryView { id: hd.0, title: hd.1, tasks: Seq::empty() }));
                        assert(story_headers(l) == h.push(hd));
                    },
                    None => {
                        assert(after == before);
                    },
                }
            },
            None => {
                match task_line(t) {
                    Some(task) => match st.current {
                        Some(c) => {
                            assert(before == st.stories.push(c));
                            assert(after.len() == before.len());
                            assert forall|i: int| 0 <= i < after.len() implies #[trigger] after[i].id
                                == before[i].id && after[i].title == before[i].title by {}
                        },
                        None => {},
                    },
                    None => {},
                }
            },
        }
    }
}

/// Each numbered `## N. Title` header of `tasks.md` gives exactly one
/// story, in the order of the headers, with that id and title.
pub proof fn law_one_story_per_header(content: Seq<char>)
    ensures
        stories_match_headers(parse_tasks(content), story_headers(lines(content))),
{
    lemma_tasks_scan_headers(lines(content));
}

fn story_header_chars(v: &[char]) -> (r: Option<(Vec<char>, Vec<char>)>)
    ensures
        match r {
            Some((id, title)) => story_header(v@) == Some((id@, title@)),
            None => story_header(v@) is None,
        },
{
    let sep = chars_of(". ");
    match split_once_chars(v, &sep) {
        Some((a, b)) => {
            let id = trim_chars(&a);
            let title = trim_chars(&b);
            if all_ascii_digits_chars(&id) {
                Some((id, title))
            } else {
                None
            }
        },
        None => None,
    }
}

/// Parses a story header like "1. Project Setup" into (id, title).
pub fn parse_story_header(text: &str) -> (r: Option<(String, String)>)
    ensures
        match r {
            Some((id, title)) => story_header(text@) == Some((id@, title@)),
            None => story_header(text@) is None,
        },
{
    let v = chars_of(text);
    match story_header_chars(&v) {
        Some((id, title)) => Some((string_of(&id), string_of(&title))),
        None => None,
    }
}

fn checkbox_chars(line: &[char]) -> (r: Option<(bool, Vec<char>)>)
    ensures
        match r {
            Some((done, rest)) => checkbox(line@) == Some((done, rest@)),
            None => checkbox(line@) is None,
        },
{
    let ticked = chars_of("- [x] ");
    let ticked_upper = chars_of("- [X] ");
    let open = chars_of("- [ ] ");
    match strip_prefix_chars(line, &ticked) {
        Some(rest) => Some((true, rest)),
        None => match strip_prefix_chars(line, &ticked_upper) {
            Some(rest) => Some((true, rest)),
            None => match strip_prefix_chars(line, &open) {
                Some(rest) => Some((false, rest)),
                None => None,
            },
        },
    }
}

fn task_line_chars(line: &[char]) -> (r: Option<Task>)
    ensures
        match r {
            Some(t) => task_line(line@) == Some(t@),
            None => task_line(line@) is None,
        },
{
    match checkbox_chars(line) {
        None => None,
        Some((done, rest)) => {
            let space = chars_of(" ");
            match split_once_chars(&rest, &space) {
                Some((a, b)) => {
                    let id = trim_chars(&a);
                    let description = trim_chars(&b);
                    Some(Task { id: string_of(&id), description: string_of(&description), done })
                },
                None => {
                    let id = trim_chars(&rest);
                    Some(Task { id: string_of(&id), description: String::new(), done })
                },
            }
        },
    }
}

/// Parses a task line like "- [ ] 1.1 Description" into a Task.
pub fn parse_task_line(line: &str) -> (r: Option<Task>)
    ensures
        match r {
            Some(t) => task_line(line@) == Some(t@),
            None => task_line(line@) is None,
        },
{
    let v = chars_of(line);
    task_line_chars(&v)
}

proof fn lemma_tasks_scan_step(l: Seq<Seq<char>>, i: int)
    requires
        0 <= i < l.len(),
    ensures
        tasks_scan(l.take(i + 1)) == tasks_step(tasks_scan(l.take(i)), l[i]),
{
    assert(l.take(i + 1).drop_last() == l.take(i));
    assert(l.take(i + 1).last() == l[i]);
}

/// Parses `tasks.md` content into the story hierarchy.
///
/// `## N. Title` opens story "N"; `- [ ] N.M Description` and
/// `- [x] N.M Description` add an open or a done task to it.
pub fn parse_tasks_md(content: &str) -> (r: Result<Vec<Story>, Error>)
    ensures
        r is Ok,
        r matches Ok(stories) ==> stories_view(stories@) == parse_tasks(content@),
{
    let chars = chars_of(content);
    let ls = lines_of(&chars);
    let header = chars_of("## ");
    let mut stories: Vec<Story> = Vec::new();
    let mut has_current = false;
    let mut cur_id = String::new();
    let mut cur_title = String::new();
    let mut cur_tasks: Vec<Task> = Vec::new();
    let mut i: usize = 0;
    assert(views(ls@).take(0) == Seq::<Seq<char>>::empty());
    while i < ls.len()
        invariant
            i <= ls@.len(),
            views(ls@) == lines(content@),
            header@ == "## "@,
            ({
                let st = tasks_scan(views(ls@).take(i as int));
                &&& st.stories == stories_view(stories@)
                &&& st.current == if has_current {
                    Some(StoryView { id: cur_id@, title: cur_title@, tasks: tasks_view(cur_tasks@) })
                } else {
                    None::<StoryView>
                }
            }),
        decreases ls@.len() - i,
    {
        proof {
            lemma_tasks_scan_step(views(ls@), i as int);
        }
        let t = trim_chars(&ls[i]);
        match strip_prefix_chars(&t, &header) {
            Some(rest) => {
                if has_current {
                    let ghost prev = stories@;
                    let story = Story { id: cur_id, title: cur_title, tasks: cur_tasks };
                    stories.push(story);
                    assert(stories_view(stories@) =~= stories_view(prev).push(story@));
                }
                match story_header_chars(&rest) {
                    Some((id, title)) => {
                        has_current = true;
                        cur_id = string_of(&id);
                        cur_title = string_of(&title);
                        cur_tasks = Vec::new();
                        assert(tasks_view(cur_tasks@) =~= Seq::<TaskView>::empty());
                    },
                    None => {
                        has_current = false;
                        cur_id = String::new();
                        cur_title = String::new();
                        cur_tasks = Vec::new();
                    },
                }
            },
            None => {
                match task_line_chars(&t) {
                    Some(task) => {
                        if has_current {
                            let ghost prev = cur_tasks@;
                            cur_tasks.push(task);
                            assert(tasks_view(cur_tasks@) =~= tasks_view(prev).push(task@));
                        }
                    },
                    None => {},
                }
            },
        }
        i += 1;
    }
    assert(views(ls@).take(ls@.len() as int) == views(ls@));
    if has_current {
        let ghost prev = stories@;
        let story = Story { id: cur_id, title: cur_title, tasks: cur_tasks };
        stories.push(story);
        assert(stories_view(stories@) =~= stories_view(prev).push(story@));
    }
    Ok(stories)
}

// ============================================================================
// Given/When/Then steps
// ============================================================================

/// The text after a leading step keyword, tried in the order
/// GIVEN, Given, WHEN, When, THEN, Then, AND, And.
pub open spec fn keyword_rest(l: Seq<char>) -> Option<Seq<char>> {
    if starts_with(l, "GIVEN"@) {
        strip_prefix(l, "GIVEN"@)
    } else if starts_with(l, "Given"@) {
        strip_prefix(l, "Given"@)
    } else if starts_with(l, "WHEN"@) {
        strip_prefix(l, "WHEN"@)
    } else if starts_with(l, "When"@) {
        strip_prefix(l, "When"@)
    } else if starts_with(l, "THEN"@) {
        strip_prefix(l, "THEN"@)
    } else if starts_with(l, "Then"@) {
        strip_prefix(l, "Then"@)
    } else if starts_with(l, "AND"@) {
        strip_prefix(l, "AND"@)
    } else if starts_with(l, "And"@) {
        strip_prefix(l, "And"@)
    } else {
        None
    }
}

/// The step text of a `- **GIVEN** ...` line: leading dashes, bold markers
/// and the keyword removed, and trimmed.
pub open spec fn step_text(line: Seq<char>) -> Seq<char> {
    let l1 = trim(trim_start_char(line, '-'));
    let l2 = trim(trim_start_str(l1, "**"@));
    match keyword_rest(l2) {
        Some(rest) => trim(trim_start_str(rest, "**"@)),
        None => l2,
    }
}

fn keyword_rest_chars(l: &[char]) -> (r: Option<Vec<char>>)
    ensures
        match r {
            Some(x) => keyword_rest(l@) == Some(x@),
            None => keyword_rest(l@) is None,
        },
{
    let kws = [
        chars_of("GIVEN"),
        chars_of("Given"),
        chars_of("WHEN"),
        chars_of("When"),
        chars_of("THEN"),
        chars_of("Then"),
        chars_of("AND"),
        chars_of("And"),
    ];
    if starts_with_chars(l, &kws[0]) {
        strip_prefix_chars(l, &kws[0])
    } else if starts_with_chars(l, &kws[1]) {
        strip_prefix_chars(l, &kws[1])
    } else if starts_with_chars(l, &kws[2]) {
        strip_prefix_chars(l, &kws[2])
    } else if starts_with_chars(l, &kws[3]) {
        strip_prefix_chars(l, &kws[3])
    } else if starts_with_chars(l, &kws[4]) {
        strip_prefix_chars(l, &kws[4])
    } else if starts_with_chars(l, &kws[5]) {
        strip_prefix_chars(l, &kws[5])
    } else if starts_with_chars(l, &kws[6]) {
        strip_prefix_chars(l, &kws[6])
    } else if starts_with_chars(l, &kws[7]) {
        strip_prefix_chars(l, &kws[7])
    } else {
        None
    }
}

/// The text of a step line, as characters: its keyword removed and
/// trimmed.
pub fn step_text_chars(line: &[char]) -> (r: Vec<char>)
    ensures
        r@ == step_text(line@),
{
    let stars = chars_of("**");
    proof {
        reveal_strlit("**");
    }
    let l1 = trim_chars(&trim_start_char_chars(line, '-'));
    let l2 = trim_chars(&trim_start_str_chars(&l1, &stars));
    match keyword_rest_chars(&l2) {
        Some(rest) => trim_chars(&trim_start_str_chars(&rest, &stars)),
        None => l2,
    }
}

/// Extracts the step text from a Given/When/Then line.
pub fn extract_step(line: &str) -> (r: String)
    ensures
        r@ == step_text(line@),
{
    let v = chars_of(line);
    let s = step_text_chars(&v);
    string_of(&s)
}

// ============================================================================
// Requirements files
// ============================================================================

/// The identifier derived from a requirement title: lowercased, spaces
/// turned into dashes, and only alphanumeric characters and dashes kept.
pub open spec fn requirement_id(title: Seq<char>) -> Seq<char> {
    slug(lowercase(title))
}

/// Spaces turned into dashes, then only alphanumerics and dashes kept.
pub open spec fn slug(s: Seq<char>) -> Seq<char>
    decreases s.len(),
{
    if s.len() == 0 {
        Seq::empty()
    } else {
        let c = if s.last() == ' ' { '-' } else { s.last() };
        let rest = slug(s.drop_last());
        if alphanumeric(c) || c == '-' {
            rest.push(c)
        } else {
            rest
        }
    }
}

/// A scenario whose steps are still being read.
pub struct PendingView {
    pub name: Seq<char>,
    pub given: Seq<Seq<char>>,
    pub when: Seq<char>,
    pub then_steps: Seq<Seq<char>>,
}

/// State of the line-by-line scan of a requirements file.
pub struct SpecScan {
    pub scenarios: Seq<ScenarioView>,
    pub requirement_id: Seq<char>,
    pub current: Option<PendingView>,
    pub in_scenario: bool,
}

/// The scenarios, followed by the pending one if any.
pub open spec fn close_scenario(
    capability: Seq<char>,
    requirement: Seq<char>,
    scenarios: Seq<ScenarioView>,
    current: Option<PendingView>,
) -> Seq<ScenarioView> {
    match current {
        Some(p) => scenarios.push(
            ScenarioView {
                name: p.name,
                capability,
                requirement_id: requirement,
                given: p.given,
                when: p.when,
                then_steps: p.then_steps,
            },
        ),
        None => scenarios,
    }
}

/// Which step keyword a line starts with, judged on its uppercase form:
/// 0 for GIVEN, 1 for WHEN, 2 for THEN, 3 for AND, 4 for none.
pub open spec fn step_kind(t: Seq<char>) -> int {
    let u = uppercase(t);
    if starts_with(u, "- **GIVEN"@) || starts_with(u, "- GIVEN"@) {
        0
    } else if starts_with(u, "- **WHEN"@) || starts_with(u, "- WHEN"@) {
        1
    } else if starts_with(u, "- **THEN"@) || starts_with(u, "- THEN"@) {
        2
    } else if starts_with(u, "- **AND"@) || starts_with(u, "- AND"@) {
        3
    } else {
        4
    }
}

/// A step line added to a pending scenario: GIVEN steps to `given`, the
/// WHEN step replaces `when`, THEN and AND steps to `then_steps`; empty
/// GIVEN, THEN and AND steps are dropped.
pub open spec fn add_step(p: PendingView, t: Seq<char>) -> PendingView {
    let k = step_kind(t);
    let step = step_text(t);
    if k == 0 {
        if step.len() > 0 {
            PendingView { given: p.given.push(step), ..p }
        } else {
            p
        }
    } else if k == 1 {
        PendingView { when: step, ..p }
    } else if k == 2 || k == 3 {
        if step.len() > 0 {
            PendingView { then_steps: p.then_steps.push(step), ..p }
        } else {
            p
        }
    } else {
        p
    }
}

/// One line of a requirements file.
pub open spec fn spec_step(capability: Seq<char>, st: SpecScan, line: Seq<char>) -> SpecScan {
    let t = trim(line);
    match strip_prefix(t, "### Requirement: "@) {
        Some(rest) => SpecScan {
            scenarios: close_scenario(capability, st.requirement_id, st.scenarios, st.current),
            requirement_id: requirement_id(trim(rest)),
            current: None,
            in_scenario: false,
        },
        None => match strip_prefix(t, "#### Scenario: "@) {
            Some(rest) => SpecScan {
                scenarios: close_scenario(capability, st.requirement_id, st.scenarios, st.current),
                requirement_id: st.requirement_id,
                current: Some(
                    PendingView {
                        name: trim(rest),
                        given: Seq::empty(),
                        when: Seq::empty(),
                        then_steps: Seq::empty(),
                    },
                ),
                in_scenario: true,
            },
            None => if st.in_scenario {
                match st.current {
                    Some(p) => SpecScan { current: Some(add_step(p, t)), ..st },
                    None => st,
                }
            } else {
                st
            },
        },
    }
}

/// The scan of a sequence of lines.
pub open spec fn spec_scan(capability: Seq<char>, lines: Seq<Seq<char>>) -> SpecScan
    decreases lines.len(),
{
    if lines.len() == 0 {
        SpecScan {
            scenarios: Seq::empty(),
            requirement_id: Seq::empty(),
            current: None,
            in_scenario: false,
        }
    } else {
        spec_step(capability, spec_scan(capability, lines.drop_last()), lines.last())
    }
}

/// The scenarios described by the requirements file of a capability.
pub open spec fn parse_spec(content: Seq<char>, capability: Seq<char>) -> Seq<ScenarioView> {
    let st = spec_scan(capability, lines(content));
    close_scenario(capability, st.requirement_id, st.scenarios, st.current)
}

/// Whether a line is a requirement or a scenario header.
pub open spec fn is_header_line(l: Seq<char>) -> bool {
    strip_prefix(trim(l), "### Requirement: "@) is Some || strip_prefix(trim(l), "#### Scenario: "@) is Some
}

/// The texts of the non-empty GIVEN step lines among the lines, in order.
pub open spec fn given_lines(ls: Seq<Seq<char>>) -> Seq<Seq<char>>
    decreases ls.len(),
{
    if ls.len() == 0 {
        Seq::empty()
    } else {
        let prev = given_lines(ls.drop_last());
        let t = trim(ls.last());
        if step_kind(t) == 0 && step_text(t).len() > 0 {
            prev.push(step_text(t))
        } else {
            prev
        }
    }
}

/// The texts of the non-empty THEN and AND step lines among the lines, in
/// order.
pub open spec fn then_lines(ls: Seq<Seq<char>>) -> Seq<Seq<char>>
    decreases ls.len(),
{
    if ls.len() == 0 {
        Seq::empty()
    } else {
        let prev = then_lines(ls.drop_last());
        let t = trim(ls.last());
        if (step_kind(t) == 2 || step_kind(t) == 3) && step_text(t).len() > 0 {
            prev.push(step_text(t))
        } else {
            prev
        }
    }
}

/// The text of the last WHEN step line among the lines, or the empty text.
pub open spec fn last_when(ls: Seq<Seq<char>>) -> Seq<char>
    decreases ls.len(),
{
    if ls.len() == 0 {
        Seq::empty()
    } else if step_kind(trim(ls.last())) == 1 {
        step_text(trim(ls.last()))
    } else {
        last_when(ls.drop_last())
    }
}

proof fn lemma_scenario_header_not_requirement(t: Seq<char>)
    requires
        strip_prefix(t, "#### Scenario: "@) is Some,
    ensures
        strip_prefix(t, "### Requirement: "@) is None,
{
    reveal_strlit("#### Scenario: ");
    reveal_strlit("### Requirement: ");
    assert(t.take(15)[3] == '#');
    if strip_prefix(t, "### Requirement: "@) is Some {
        assert(t.take(17)[3] == ' ');
        assert(t.take(15)[3] == t[3]);
        assert(t.take(17)[3] == t[3]);
    }
}

proof fn lemma_steps_scan(c: Seq<char>, header: Seq<char>, body: Seq<Seq<char>>, i: int)
    requires
        strip_prefix(trim(header), "#### Scenario: "@) is Some,
        forall|k: int| 0 <= k < body.len() ==> !is_header_line(#[trigger] body[k]),
        0 <= i <= body.len(),
    ensures
        ({
            let st = spec_scan(c, seq![header] + body.take(i));
            &&& st.scenarios.len() == 0
            &&& st.in_scenario
            &&& st.current matches Some(p) && p.name == trim(strip_prefix(trim(header), "#### Scenario: "@)->0)
                && p.given == given_lines(body.take(i)) && p.then_steps == then_lines(body.take(i))
                && p.when == last_when(body.take(i))
        }),
    decreases i,
{
    let ls = seq![header] + body.take(i);
    if i == 0 {
        lemma_scenario_header_not_requirement(trim(header));
        assert(body.take(0) =~= Seq::<Seq<char>>::empty());
        assert(ls =~= seq![header]);
        assert(ls.drop_last() =~= Seq::<Seq<char>>::empty());
        assert(spec_scan(c, ls) == spec_step(c, spec_scan(c, ls.drop_last()), ls.last()));
        assert(ls.last() == header);
    } else {
        lemma_steps_scan(c, header, body, i - 1);
        let prev = seq![header] + body.take(i - 1);
        assert(ls.drop_last() =~= prev);
        assert(ls.last() == body[i - 1]);
        assert(body.take(i).drop_last() =~= body.take(i - 1));
        assert(body.take(i).last() == body[i - 1]);
        assert(!is_header_line(body[i - 1]));
        let st0 = spec_scan(c, prev);
        assert(spec_scan(c, ls) == spec_step(c, st0, body[i - 1]));
        let t = trim(body[i - 1]);
        let p = st0.current->0;
        assert(spec_scan(c, ls) == SpecScan { current: Some(add_step(p, t)), ..st0 });
        assert(given_lines(body.take(i)) == (if step_kind(t) == 0 && step_text(t).len() > 0 {
            given_lines(body.take(i - 1)).push(step_text(t))
        } else {
            given_lines(body.take(i - 1))
        }));
    }
}

/// The steps of a scenario are those of its lines: in a file that is one
/// `#### Scenario:` header followed by lines that are no headers, the one
/// scenario has as GIVEN steps the texts of all non-empty GIVEN lines, in
/// order; as THEN steps those of all non-empty THEN and AND lines, in
/// order; and as WHEN step the text of the last WHEN line.
pub proof fn law_scenario_steps_are_its_lines(
    content: Seq<char>,
    capability: Seq<char>,
    header: Seq<char>,
    body: Seq<Seq<char>>,
)
    requires
        lines(content) == seq![header] + body,
        strip_prefix(trim(header), "#### Scenario: "@) is Some,
        forall|k: int| 0 <= k < body.len() ==> !is_header_line(#[trigger] body[k]),
    ensures
        parse_spec(content, capability).len() == 1,
        parse_spec(content, capability)[0].given == given_lines(body),
        parse_spec(content, capability)[0].then_steps == then_lines(body),
        parse_spec(content, capability)[0].when == last_when(body),
        parse_spec(content, capability)[0].capability == capability,
{
    lemma_steps_scan(capability, header, body, body.len() as int);
    assert(body.take(body.len() as int) =~= body);
}

/// The requirement id set by the last `### Requirement:` header among the
/// lines, or the empty id before the first one.
pub open spec fn requirement_in_force(lines: Seq<Seq<char>>) -> Seq<char>
    decreases lines.len(),
{
    if lines.len() == 0 {
        Seq::empty()
    } else {
        match strip_prefix(trim(lines.last()), "### Requirement: "@) {
            Some(rest) => requirement_id(trim(rest)),
            None => requirement_in_force(lines.drop_last()),
        }
    }
}

/// The `#### Scenario: Name` headers among the lines, in order, each as its
/// name and the requirement id in force where it stands.
pub open spec fn scenario_headers(lines: Seq<Seq<char>>) -> Seq<(Seq<char>, Seq<char>)>
    decreases lines.len(),
{
    if lines.len() == 0 {
        Seq::empty()
    } else {
        let prev = scenario_headers(lines.drop_last());
        let t = trim(lines.last());
        if strip_prefix(t, "### Requirement: "@) is Some {
            prev
        } else {
            match strip_prefix(t, "#### Scenario: "@) {
                Some(rest) => prev.push((trim(rest), requirement_in_force(lines.drop_last()))),
                None => prev,
            }
        }
    }
}

/// The scenarios agree, one for one and in order, with the headers, and
/// belong to the capability.
pub open spec fn scenarios_match_headers(
    s: Seq<ScenarioView>,
    h: Seq<(Seq<char>, Seq<char>)>,
    capability: Seq<char>,
) -> bool {
    &&& s.len() == h.len()
    &&& forall|i: int|
        0 <= i < s.len() ==> #[trigger] s[i].name == h[i].0 && s[i].requirement_id == h[i].1
            && s[i].capability == capability
}

spec fn scan_matches_headers(c: Seq<char>, l: Seq<Seq<char>>) -> bool {
    let st = spec_scan(c, l);
    let h = scenario_headers(l);
    &&& st.requirement_id == requirement_in_force(l)
    &&& scenarios_match_headers(close_scenario(c, st.requirement_id, st.scenarios, st.current), h, c)
    &&& st.current matches Some(p) ==> (h.len() > 0 && p.name == h.last().0 && h.last().1
        == st.requirement_id)
}

proof fn lemma_spec_scan_headers(c: Seq<char>, l: Seq<Seq<char>>)
    ensures
        scan_matches_headers(c, l),
    decreases l.len(),
{
    if l.len() > 0 {
        let pl = l.drop_last();
        lemma_spec_scan_headers(c, pl);
        let st = spec_scan(c, pl);
        let h = scenario_headers(pl);
        let closed = close_scenario(c, st.requirement_id, st.scenarios, st.current);
        let t = trim(l.last());
        assert(spec_scan(c, l) == spec_step(c, st, l.last()));
        match strip_prefix(t, "### Requirement: "@) {
            Some(rest) => {
                assert(scenario_headers(l) == h);
            },
            None => match strip_prefix(t, "#### Scenario: "@) {
                Some(rest) => {
                    let hd = (trim(rest), requirement_in_force(pl));
                    assert(scenario_headers(l) == h.push(hd));
                    let nst = spec_scan(c, l);
                    let nclosed = close_scenario(c, nst.requirement_id, nst.scenarios, nst.current);
                    assert(nst.scenarios == closed);
                    assert(nclosed.len() == closed.len() + 1);
                    assert forall|i: int| 0 <= i < nclosed.len() implies #[trigger] nclosed[i].name
                        == h.push(hd)[i].0 && nclosed[i].requirement_id == h.push(hd)[i].1
                        && nclosed[i].capability == c by {
                        if i < closed.len() {
                            assert(nclosed[i] == closed[i]);
                        }
                    }
                },
                None => {
                    assert(scenario_headers(l) == h);
                    assert(requirement_in_force(l) == requirement_in_force(pl));
                    if st.in_scenario {
                        match st.current {
                            Some(p) => {
                                let np = add_step(p, t);
                                assert(np.name == p.name);
                                let nst = spec_scan(c, l);
                                let nclosed = close_scenario(c, nst.requirement_id, nst.scenarios, nst.current);
                                assert(nclosed.len() == closed.len());
                                assert forall|i: int| 0 <= i < nclosed.len() implies #[trigger] nclosed[i].name
                                    == h[i].0 && nclosed[i].requirement_id == h[i].1
                                    && nclosed[i].capability == c by {
                                    if i < st.scenarios.len() {
                                        assert(nclosed[i] == closed[i]);
                                    } else {
                                        assert(closed[i].name == p.name);
                                    }
                                }
                            },
                            None => {},
                        }
                    }
                },
            },
        }
    }
}

/// Each `#### Scenario: Name` line of a requirements file gives exactly one
/// scenario, in the order of those lines, named by it, of the capability,
/// and under the requirement whose `### Requirement:` header last came
/// before it (the empty id before any).
pub proof fn law_one_scenario_per_header(content: Seq<char>, capability: Seq<char>)
    ensures
        scenarios_match_headers(
            parse_spec(content, capability),
            scenario_headers(lines(content)),
            capability,
        ),
{
    lemma_spec_scan_headers(capability, lines(content));
}

/// A scenario whose steps are still being read.
pub struct Pending {
    pub name: String,
    pub given: Vec<String>,
    pub when: String,
    pub then_steps: Vec<String>,
}

impl View for Pending {
    type V = PendingView;

    open spec fn view(&self) -> PendingView {
        PendingView {
            name: self.name@,
            given: strs(self.given@),
            when: self.when@,
            then_steps: strs(self.then_steps@),
        }
    }
}

/// The identifier derived from a requirement title.
pub fn requirement_id_of(title: &str) -> (r: String)
    ensures
        r@ == requirement_id(title@),
{
    let lower = to_lowercase(title);
    let v = chars_of(lower.as_str());
    let mut r = String::new();
    let mut i: usize = 0;
    assert(v@.take(0) == Seq::<char>::empty());
    while i < v.len()
        invariant
            i <= v@.len(),
            v@ == lowercase(title@),
            r@ == slug(v@.take(i as int)),
        decreases v@.len() - i,
    {
        assert(v@.take(i + 1).drop_last() == v@.take(i as int));
        let c = if v[i] == ' ' { '-' } else { v[i] };
        if is_alphanumeric(c) || c == '-' {
            r.push(c);
        }
        i += 1;
    }
    assert(v@.take(v@.len() as int) == v@);
    r
}

/// The kind of a step line, read case-insensitively: 0 for GIVEN, 1 for
/// WHEN, 2 for THEN, 3 for AND, 4 for anything else.
pub fn step_kind_of(t: &[char]) -> (k: u8)
    ensures
        k as int == step_kind(t@),
{
    let s = string_of(t);
    let u = to_uppercase(s.as_str());
    let uv = chars_of(u.as_str());
    if starts_with_chars(&uv, &chars_of("- **GIVEN")) || starts_with_chars(&uv, &chars_of("- GIVEN")) {
        0
    } else if starts_with_chars(&uv, &chars_of("- **WHEN")) || starts_with_chars(&uv, &chars_of("- WHEN")) {
        1
    } else if starts_with_chars(&uv, &chars_of("- **THEN")) || starts_with_chars(&uv, &chars_of("- THEN")) {
        2
    } else if starts_with_chars(&uv, &chars_of("- **AND")) || starts_with_chars(&uv, &chars_of("- AND")) {
        3
    } else {
        4
    }
}

/// The pending scenario with a step line added.
pub fn add_step_exec(p: Pending, t: &[char]) -> (r: Pending)
    ensures
        r@ == add_step(p@, t@),
{
    let k = step_kind_of(t);
    let step = step_text_chars(t);
    let mut p = p;
    if k == 0 {
        if step.len() > 0 {
            let ghost prev = p.given@;
            p.given.push(string_of(&step));
            assert(strs(p.given@) =~= strs(prev).push(step@));
        }
    } else if k == 1 {
        p.when = string_of(&step);
    } else if k == 2 || k == 3 {
        if step.len() > 0 {
            let ghost prev = p.then_steps@;
            p.then_steps.push(string_of(&step));
            assert(strs(p.then_steps@) =~= strs(prev).push(step@));
        }
    }
    p
}

fn close_pending(
    capability: &str,
    requirement: &String,
    scenarios: &mut Vec<Scenario>,
    current: Option<Pending>,
)
    ensures
        scenarios_view(final(scenarios)@) == close_scenario(
            capability@,
            requirement@,
            scenarios_view(old(scenarios)@),
            match current {
                Some(p) => Some(p@),
                None => None::<PendingView>,
            },
        ),
{
    match current {
        Some(p) => {
            let ghost prev = scenarios@;
            let sc = Scenario {
                name: p.name,
                capability: capability.to_owned(),
                requirement_id: requirement.clone(),
                given: p.given,
                when: p.when,
                then_steps: p.then_steps,
            };
            scenarios.push(sc);
            assert(scenarios_view(scenarios@) =~= scenarios_view(prev).push(sc@));
        },
        None => {},
    }
}

proof fn lemma_spec_scan_step(c: Seq<char>, l: Seq<Seq<char>>, i: int)
    requires
        0 <= i < l.len(),
    ensures
        spec_scan(c, l.take(i + 1)) == spec_step(c, spec_scan(c, l.take(i)), l[i]),
{
    assert(l.take(i + 1).drop_last() == l.take(i));
    assert(l.take(i + 1).last() == l[i]);
}

/// Parses the requirements file of a capability into scenarios.
///
/// `### Requirement: Name` sets the requirement the following scenarios
/// belong to; `#### Scenario: Name` opens a scenario, whose
/// `- **GIVEN**`/`WHEN`/`THEN`/`AND` lines give its steps.
pub fn parse_spec_md(content: &str, capability: &str) -> (r: Result<Vec<Scenario>, Error>)
    ensures
        r is Ok,
        r matches Ok(sc) ==> scenarios_view(sc@) == parse_spec(content@, capability@),
{
    let chars = chars_of(content);
    let ls = lines_of(&chars);
    let req_header = chars_of("### Requirement: ");
    let scen_header = chars_of("#### Scenario: ");
    let mut scenarios: Vec<Scenario> = Vec::new();
    let mut requirement = String::new();
    let mut current: Option<Pending> = None;
    let mut in_scenario = false;
    let mut i: usize = 0;
    assert(views(ls@).take(0) == Seq::<Seq<char>>::empty());
    while i < ls.len()
        invariant
            i <= ls@.len(),
            views(ls@) == lines(content@),
            req_header@ == "### Requirement: "@,
            scen_header@ == "#### Scenario: "@,
            ({
                let st = spec_scan(capability@, views(ls@).take(i as int));
                &&& st.scenarios == scenarios_view(scenarios@)
                &&& st.requirement_id == requirement@
                &&& st.in_scenario == in_scenario
                &&& st.current == match current {
                    Some(p) => Some(p@),
                    None => None::<PendingView>,
                }
            }),
        decreases ls@.len() - i,
    {
        proof {
            lemma_spec_scan_step(capability@, views(ls@), i as int);
        }
        let t = trim_chars(&ls[i]);
        match strip_prefix_chars(&t, &req_header) {
            Some(rest) => {
                let taken = current.take();
                close_pending(capability, &requirement, &mut scenarios, taken);
                let title = string_of(&trim_chars(&rest));
                requirement = requirement_id_of(title.as_str());
                in_scenario = false;
            },
            None => match strip_prefix_chars(&t, &scen_header) {
                Some(rest) => {
                    let taken = current.take();
                    close_pending(capability, &requirement, &mut scenarios, taken);
                    let name = string_of(&trim_chars(&rest));
                    let p = Pending {
                        name,
                        given: Vec::new(),
                        when: String::new(),
                        then_steps: Vec::new(),
                    };
                    assert(strs(p.given@) =~= Seq::<Seq<char>>::empty());
                    assert(strs(p.then_steps@) =~= Seq::<Seq<char>>::empty());
                    current = Some(p);
                    in_scenario = true;
                },
                None => {
                    if in_scenario {
                        let taken = current.take();
                        match taken {
                            Some(p) => {
                                current = Some(add_step_exec(p, &t));
                            },
                            None => {},
                        }
                    }
                },
            },
        }
        i += 1;
    }
    assert(views(ls@).take(ls@.len() as int) == views(ls@));
    close_pending(capability, &requirement, &mut scenarios, current);
    Ok(scenarios)
}

// ============================================================================
// Verification commands
// ============================================================================

/// Which project manifests exist in the working directory.
#[derive(Debug, Clone, Copy, Default)]
pub struct ProjectMarkers {
    /// `Cargo.toml` exists.
    pub cargo_toml: bool,
    /// `package.json` exists.
    pub package_json: bool,
    /// `pyproject.toml` exists.
    pub pyproject_toml: bool,
    /// `setup.py` exists.
    pub setup_py: bool,
}

/// Check and test commands of a project, judged by its manifests: Rust
/// first, then Node.js, then Python, else none.
pub open spec fn verify_commands_for(m: ProjectMarkers) -> (Seq<Seq<char>>, Seq<char>) {
    if m.cargo_toml {
        (seq!["cargo check"@, "cargo clippy -- -D warnings"@], "cargo test"@)
    } else if m.package_json {
        (seq!["npm run lint"@], "npm test"@)
    } else if m.pyproject_toml || m.setup_py {
        (seq!["python -m mypy ."@], "python -m pytest"@)
    } else {
        (Seq::empty(), Seq::empty())
    }
}

/// The verification commands follow the project's manifests: a project
/// with any manifest gets a test command and one without gets none; Cargo
/// decides alone, then package.json; otherwise either Python manifest, alone
/// or with the other, gives the Python commands (mypy check, pytest tests).
pub proof fn law_manifests_select_commands(m: ProjectMarkers)
    ensures
        (verify_commands_for(m).1.len() > 0) == (m.cargo_toml || m.package_json || m.pyproject_toml
            || m.setup_py),
        verify_commands_for(m).1.len() == 0 ==> verify_commands_for(m).0.len() == 0,
        m.cargo_toml ==> verify_commands_for(m) == verify_commands_for(
            ProjectMarkers { cargo_toml: true, package_json: false, pyproject_toml: false, setup_py: false },
        ),
        !m.cargo_toml && m.package_json ==> verify_commands_for(m) == verify_commands_for(
            ProjectMarkers { cargo_toml: false, package_json: true, pyproject_toml: false, setup_py: false },
        ),
        !m.cargo_toml && !m.package_json && (m.pyproject_toml || m.setup_py) ==> verify_commands_for(m)
            == (seq!["python -m mypy ."@], "python -m pytest"@),
        verify_commands_for(
            ProjectMarkers { cargo_toml: false, package_json: false, pyproject_toml: true, setup_py: false },
        ) == verify_commands_for(
            ProjectMarkers { cargo_toml: false, package_json: false, pyproject_toml: false, setup_py: true },
        ),
{
    reveal_strlit("cargo test");
    reveal_strlit("npm test");
    reveal_strlit("python -m pytest");
}

/// Infers verification commands from the project type.
pub fn infer_verify_commands(m: ProjectMarkers) -> (c: VerifyCommands)
    ensures
        (strs(c.checks@), c.tests@) == verify_commands_for(m),
{
    let mut checks: Vec<String> = Vec::new();
    if m.cargo_toml {
        add_line(&mut checks, "cargo check");
        add_line(&mut checks, "cargo clippy -- -D warnings");
        VerifyCommands { checks, tests: "cargo test".to_owned() }
    } else if m.package_json {
        add_line(&mut checks, "npm run lint");
        VerifyCommands { checks, tests: "npm test".to_owned() }
    } else if m.pyproject_toml || m.setup_py {
        add_line(&mut checks, "python -m mypy .");
        VerifyCommands { checks, tests: "python -m pytest".to_owned() }
    } else {
        assert(strs(checks@) =~= Seq::<Seq<char>>::empty());
        VerifyCommands { checks, tests: String::new() }
    }
}

// ============================================================================
// Adapter
// ============================================================================

/// Information about an OpenSpec change, as `openspec list --json` reports it.
#[derive(Debug, Clone)]
pub struct ChangeInfo {
    pub name: String,
    pub completed_tasks: usize,
    pub total_tasks: usize,
    pub last_modified: String,
    pub status: String,
}

/// Status of a change, as `openspec status --change <name> --json` reports it.
#[derive(Debug, Clone)]
pub struct StatusResponse {
    /// Name of the change.
    pub change_name: String,
    /// Whether all tasks of the change are complete.
    pub is_complete: bool,
}

/// The files of a change directory, as read from disk.
#[derive(Debug, Clone)]
pub struct ChangeFiles {
    /// Path of the change directory (`<cwd>/openspec/changes/<name>`).
    pub change_dir: String,
    /// Content of `tasks.md`, if it exists.
    pub tasks_md: Option<String>,
    /// `(capability, content)` of each capability's requirements file under `specs/`.
    pub spec_files: Vec<(String, String)>,
    /// Content of `proposal.md` (empty when unreadable).
    pub proposal: String,
    /// Content of `design.md` (empty when unreadable).
    pub design: String,
}

/// Abstract value of an [`OpenSpecAdapter`].
pub struct AdapterView {
    pub change_name: Seq<char>,
    pub change_dir: Seq<char>,
    pub stories: Seq<StoryView>,
    pub scenarios: Seq<ScenarioView>,
    pub proposal: Seq<char>,
    pub design: Seq<char>,
    pub checks: Seq<Seq<char>>,
    pub tests: Seq<char>,
}

/// OpenSpec adapter that provides spec domain types from a change's files.
pub struct OpenSpecAdapter {
    change_name: String,
    change_dir: String,
    stories: Vec<Story>,
    scenarios: Vec<Scenario>,
    proposal: String,
    design: String,
    verify: VerifyCommands,
}

impl View for OpenSpecAdapter {
    type V = AdapterView;

    closed spec fn view(&self) -> AdapterView {
        AdapterView {
            change_name: self.change_name@,
            change_dir: self.change_dir@,
            stories: stories_view(self.stories@),
            scenarios: scenarios_view(self.scenarios@),
            proposal: self.proposal@,
            design: self.design@,
            checks: strs(self.verify.checks@),
            tests: self.verify.tests@,
        }
    }
}

/// The scenarios of all spec files, in the order given.
pub open spec fn parse_spec_files(files: Seq<(String, String)>) -> Seq<ScenarioView>
    decreases files.len(),
{
    if files.len() == 0 {
        Seq::empty()
    } else {
        parse_spec_files(files.drop_last()) + parse_spec(files.last().1@, files.last().0@)
    }
}

/// The stories of a change: those of `tasks.md`, or none without it.
pub open spec fn change_stories(tasks_md: Option<String>) -> Seq<StoryView> {
    match tasks_md {
        Some(c) => parse_tasks(c@),
        None => Seq::empty(),
    }
}

/// First index of a story with the given id.
pub open spec fn find_story(stories: Seq<StoryView>, id: Seq<char>) -> Option<int>
    decreases stories.len(),
{
    if stories.len() == 0 {
        None
    } else {
        match find_story(stories.drop_last(), id) {
            Some(i) => Some(i),
            None => if stories.last().id == id {
                Some(stories.len() - 1)
            } else {
                None
            },
        }
    }
}

/// The instructions on how to use OpenSpec, for a change directory and the
/// project's verification commands.
pub open spec fn tool_prompt_sections(dir: Seq<char>, checks: Seq<Seq<char>>, tests: Seq<char>) -> Seq<Seq<char>> {
    let fixed = seq![
        "## OpenSpec File Locations\n"@,
        "- `"@ + dir + "/proposal.md` - Motivation and scope"@,
        "- `"@ + dir + "/design.md` - Technical decisions"@,
        "- `"@ + dir + "/tasks.md` - Stories and tasks to implement"@,
        "- `"@ + dir + "/specs/` - Detailed requirements with Given/When/Then scenarios\n"@,
        "## Marking Tasks Complete\n"@,
        "Edit `"@ + dir + "/tasks.md` directly to mark tasks complete:"@,
        "- Change `- [ ]` to `- [x]` for completed tasks"@,
        "- Example: `- [ ] 1.1 Task description` becomes `- [x] 1.1 Task description`\n"@,
        "## Scenario Format\n"@,
        "Specs use Given/When/Then format:"@,
        "- **GIVEN** preconditions that must be true"@,
        "- **WHEN** the action or trigger occurs"@,
        "- **THEN** the expected outcomes\n"@,
        "## Verification Commands\n"@,
    ];
    let with_checks = if checks.len() > 0 {
        fixed.push("Run these checks after implementing:"@) + bash_blocks(checks)
    } else {
        fixed
    };
    if tests.len() > 0 {
        with_checks.push("\nRun tests:\n```bash\n"@ + tests + "\n```"@)
    } else {
        with_checks
    }
}

/// Each command in a fenced bash block.
pub open spec fn bash_blocks(cmds: Seq<Seq<char>>) -> Seq<Seq<char>> {
    cmds.map_values(|c: Seq<char>| "```bash\n"@ + c + "\n```"@)
}

/// Appends each command of `cmds` as a fenced bash block.
pub fn add_bash_blocks(sections: &mut Vec<String>, cmds: &Vec<String>)
    ensures
        strs(final(sections)@) == strs(old(sections)@) + bash_blocks(strs(cmds@)),
{
    let ghost start = strs(sections@);
    let mut i: usize = 0;
    while i < cmds.len()
        invariant
            i <= cmds@.len(),
            strs(sections@) == start + bash_blocks(strs(cmds@)).take(i as int),
        decreases cmds@.len() - i,
    {
        let block = concat3("```bash\n", cmds[i].as_str(), "\n```");
        add_section(sections, block);
        assert(bash_blocks(strs(cmds@)).take(i + 1) =~= bash_blocks(strs(cmds@)).take(i as int).push(
            block@,
        ));
        i += 1;
    }
    assert(bash_blocks(strs(cmds@)).take(cmds@.len() as int) =~= bash_blocks(strs(cmds@)));
}

impl OpenSpecAdapter {
    /// Creates the adapter for a change from the change's files: parses
    /// `tasks.md` and every requirements file, and infers the verification commands.
    pub fn new(change_name: &str, files: ChangeFiles, markers: ProjectMarkers) -> (r: Result<
        Self,
        Error,
    >)
        ensures
            r matches Ok(a) && a@ == (AdapterView {
                change_name: change_name@,
                change_dir: files.change_dir@,
                stories: change_stories(files.tasks_md),
                scenarios: parse_spec_files(files.spec_files@),
                proposal: files.proposal@,
                design: files.design@,
                checks: verify_commands_for(markers).0,
                tests: verify_commands_for(markers).1,
            }),
    {
        let stories = match &files.tasks_md {
            Some(c) => match parse_tasks_md(c.as_str()) {
                Ok(s) => s,
                Err(e) => return Err(e),
            },
            None => Vec::new(),
        };
        assert(stories_view(stories@) == change_stories(files.tasks_md));
        let mut scenarios: Vec<Scenario> = Vec::new();
        let mut i: usize = 0;
        while i < files.spec_files.len()
            invariant
                i <= files.spec_files@.len(),
                scenarios_view(scenarios@) == parse_spec_files(files.spec_files@.take(i as int)),
            decreases files.spec_files@.len() - i,
        {
            let (cap, content) = &files.spec_files[i];
            let parsed = match parse_spec_md(content.as_str(), cap.as_str()) {
                Ok(p) => p,
                Err(e) => return Err(e),
            };
            let ghost prev = scenarios@;
            let mut parsed = parsed;
            let ghost pv = scenarios_view(parsed@);
            scenarios.append(&mut parsed);
            assert(scenarios_view(scenarios@) =~= scenarios_view(prev) + pv);
            assert(files.spec_files@.take(i + 1).drop_last() == files.spec_files@.take(i as int));
            i += 1;
        }
        assert(files.spec_files@.take(files.spec_files@.len() as int) == files.spec_files@);
        let verify = infer_verify_commands(markers);
        Ok(OpenSpecAdapter {
            change_name: change_name.to_owned(),
            change_dir: files.change_dir,
            stories,
            scenarios,
            proposal: files.proposal,
            design: files.design,
            verify,
        })
    }

    /// Returns the change directory path.
    pub fn change_dir(&self) -> (d: &str)
        ensures
            d@ == self@.change_dir,
    {
        self.change_dir.as_str()
    }

    /// Whether a change is complete, by the status that `openspec status`
    /// reported for it.
    pub fn is_complete(status: &StatusResponse) -> (b: bool)
        ensures
            b == status.is_complete,
    {
        status.is_complete
    }
}

impl SpecAdapter for OpenSpecAdapter {
    open spec fn stories_spec(&self) -> Result<Seq<StoryView>, ErrorView> {
        Ok(self@.stories)
    }

    open spec fn scenarios_spec(&self) -> Result<Seq<ScenarioView>, ErrorView> {
        Ok(self@.scenarios)
    }

    open spec fn context_spec(&self, story_id: Seq<char>) -> Result<ContextView, ErrorView> {
        match find_story(self@.stories, story_id) {
            Some(i) => Ok(
                ContextView {
                    story: self@.stories[i],
                    proposal: self@.proposal,
                    design: self@.design,
                    scenarios: self@.scenarios,
                    checks: self@.checks,
                    tests: self@.tests,
                },
            ),
            None => Err(ErrorView::StoryNotFound(story_id)),
        }
    }

    open spec fn verify_spec(&self) -> Result<(Seq<Seq<char>>, Seq<char>), ErrorView> {
        Ok((self@.checks, self@.tests))
    }

    open spec fn tool_spec(&self) -> Seq<char> {
        join(tool_prompt_sections(self@.change_dir, self@.checks, self@.tests), "\n"@)
    }

    fn stories(&self) -> (r: Result<Vec<Story>, Error>)
        ensures
            r matches Ok(v) && stories_view(v@) == self@.stories,
    {
        Ok(copy_stories(&self.stories))
    }

    fn scenarios(&self) -> (r: Result<Vec<Scenario>, Error>)
        ensures
            r matches Ok(v) && scenarios_view(v@) == self@.scenarios,
    {
        Ok(copy_scenarios(&self.scenarios))
    }

    fn context(&self, story_id: &str) -> (r: Result<Context, Error>)
        ensures
            match find_story(self@.stories, story_id@) {
                Some(i) => r matches Ok(c) && c.story@ == self@.stories[i] && c.proposal@
                    == self@.proposal && c.design@ == self@.design && scenarios_view(c.scenarios@)
                    == self@.scenarios && strs(c.verify.checks@) == self@.checks && c.verify.tests@
                    == self@.tests,
                None => r matches Err(Error::StoryNotFound(id)) && id@ == story_id@,
            },
    {
        let mut i: usize = 0;
        while i < self.stories.len()
            invariant
                i <= self.stories@.len(),
                find_story(stories_view(self.stories@.take(i as int)), story_id@) is None,
            decreases self.stories@.len() - i,
        {
            proof {
                assert(stories_view(self.stories@.take(i + 1)).drop_last() =~= stories_view(
                    self.stories@.take(i as int),
                ));
            }
            if str_eq(self.stories[i].id.as_str(), story_id) {
                proof {
                    assert(find_story(stories_view(self.stories@.take(i + 1)), story_id@) == Some(
                        i as int,
                    ));
                    assert(stories_view(self.stories@).take(i + 1) =~= stories_view(
                        self.stories@.take(i + 1),
                    ));
                    lemma_find_story_prefix(stories_view(self.stories@), story_id@, i + 1);
                }
                let c = Context {
                    story: self.stories[i].copy(),
                    proposal: self.proposal.clone(),
                    design: self.design.clone(),
                    scenarios: copy_scenarios(&self.scenarios),
                    verify: self.verify.copy(),
                };
                return Ok(c);
            }
            i += 1;
        }
        assert(self.stories@.take(self.stories@.len() as int) == self.stories@);
        Err(Error::StoryNotFound(story_id.to_owned()))
    }

    fn verify_commands(&self) -> (r: Result<VerifyCommands, Error>)
        ensures
            r matches Ok(c) && strs(c.checks@) == self@.checks && c.tests@ == self@.tests,
    {
        Ok(self.verify.copy())
    }

    fn tool_prompt(&self) -> (p: String)
        ensures
            p@ == join(tool_prompt_sections(self@.change_dir, self@.checks, self@.tests), "\n"@),
    {
        let dir = self.change_dir.as_str();
        let mut sections: Vec<String> = Vec::new();
        add_line(&mut sections, "## OpenSpec File Locations\n");
        add_section(&mut sections, concat3("- `", dir, "/proposal.md` - Motivation and scope"));
        add_section(&mut sections, concat3("- `", dir, "/design.md` - Technical decisions"));
        add_section(&mut sections, concat3("- `", dir, "/tasks.md` - Stories and tasks to implement"));
        add_section(
            &mut sections,
            concat3("- `", dir, "/specs/` - Detailed requirements with Given/When/Then scenarios\n"),
        );
        add_line(&mut sections, "## Marking Tasks Complete\n");
        add_section(&mut sections, concat3("Edit `", dir, "/tasks.md` directly to mark tasks complete:"));
        add_line(&mut sections, "- Change `- [ ]` to `- [x]` for completed tasks");
        add_line(
            &mut sections,
            "- Example: `- [ ] 1.1 Task description` becomes `- [x] 1.1 Task description`\n",
        );
        add_line(&mut sections, "## Scenario Format\n");
        add_line(&mut sections, "Specs use Given/When/Then format:");
        add_line(&mut sections, "- **GIVEN** preconditions that must be true");
        add_line(&mut sections, "- **WHEN** the action or trigger occurs");
        add_line(&mut sections, "- **THEN** the expected outcomes\n");
        add_line(&mut sections, "## Verification Commands\n");
        if self.verify.checks.len() > 0 {
            add_line(&mut sections, "Run these checks after implementing:");
            add_bash_blocks(&mut sections, &self.verify.checks);
        }
        if self.verify.tests.as_str().is_empty() == false {
            add_section(&mut sections, concat3("\nRun tests:\n```bash\n", self.verify.tests.as_str(), "\n```"));
        }
        assert(strs(sections@) =~= tool_prompt_sections(self@.change_dir, self@.checks, self@.tests));
        join_strings(&sections, "\n")
    }
}

proof fn lemma_find_story_prefix(s: Seq<StoryView>, id: Seq<char>, n: int)
    requires
        0 <= n <= s.len(),
        find_story(s.take(n), id) is Some,
    ensures
        find_story(s, id) == find_story(s.take(n), id),
    decreases s.len() - n,
{
    if n == s.len() {
        assert(s.take(n) == s);
    } else {
        assert(s.take(n + 1).drop_last() == s.take(n));
        lemma_find_story_prefix(s, id, n + 1);
    }
}

} // verus!
