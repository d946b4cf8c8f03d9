//! OpenSpec adapter implementing the Ralph traits: tasks from `tasks.md`,
//! and user stories (one per requirement) with their scenarios from the
//! requirements files of a change.

use vstd::prelude::*;

use crate::error::Error;
use crate::ralph::traits::{ProgressTracker, StoryProvider, TaskSource, VerificationSource};
use crate::ralph::types::{
    ralph_scenarios_view, ralph_stories_view, ralph_tasks_view, Learning, Pattern, Priority,
    Scenario, Story, Task, UserStory,
};
use crate::spec::openspec::{
    add_step, add_step_exec, change_stories, parse_tasks, requirement_id, requirement_id_of,
    task_line, ChangeFiles, Pending, PendingView,
};
use crate::spec::types::{user_stories_view, StoryView, TaskView, UserStoryView};
use crate::text::{
    chars_of, lines, lines_of, pairs_view, starts_with, starts_with_chars, str_eq,
    string_of, strip_prefix, strip_prefix_chars, strs, trim, trim_chars, views,
};

pub use crate::spec::openspec::{extract_step, parse_story_header, ChangeInfo, StatusResponse};

verus! {

// ============================================================================
// tasks.md
// ============================================================================

fn ralph_task(t: &crate::spec::types::Task) -> (r: Task)
    ensures
        r@ == t@,
{
    Task { id: t.id.clone(), description: t.description.clone(), complete: t.done }
}

fn ralph_story(s: &crate::spec::types::Story) -> (r: Story)
    ensures
        r@ == s@,
{
    let mut tasks: Vec<Task> = Vec::new();
    let mut i: usize = 0;
    while i < s.tasks.len()
        invariant
            i <= s.tasks@.len(),
            ralph_tasks_view(tasks@) == s@.tasks.take(i as int),
        decreases s.tasks@.len() - i,
    {
        let t = ralph_task(&s.tasks[i]);
        let ghost prev = tasks@;
        tasks.push(t);
        assert(ralph_tasks_view(tasks@) =~= ralph_tasks_view(prev).push(t@));
        assert(s@.tasks.take(i + 1) =~= s@.tasks.take(i as int).push(s@.tasks[i as int]));
        i += 1;
    }
    assert(s@.tasks.take(s@.tasks.len() as int) == s@.tasks);
    Story { id: s.id.clone(), title: s.title.clone(), tasks }
}

/// Parses a task line like `- [ ] 1.1 Description` into a task.
pub fn parse_task_line(line: &str) -> (r: Option<Task>)
    ensures
        match r {
            Some(t) => task_line(line@) == Some(t@),
            None => task_line(line@) is None,
        },
{
    match crate::spec::openspec::parse_task_line(line) {
        Some(t) => Some(ralph_task(&t)),
        None => None,
    }
}

/// Parses `tasks.md` content into the Story > Task hierarchy.
pub fn parse_tasks_md(content: &str) -> (r: Result<Vec<Story>, Error>)
    ensures
        r matches Ok(v) && ralph_stories_view(v@) == parse_tasks(content@),
{
    let parsed = match crate::spec::openspec::parse_tasks_md(content) {
        Ok(p) => p,
        Err(e) => return Err(e),
    };
    let mut stories: Vec<Story> = Vec::new();
    let mut i: usize = 0;
    while i < parsed.len()
        invariant
            i <= parsed@.len(),
            ralph_stories_view(stories@) == crate::spec::types::stories_view(parsed@).take(i as int),
        decreases parsed@.len() - i,
    {
        let s = ralph_story(&parsed[i]);
        let ghost prev = stories@;
        stories.push(s);
        assert(ralph_stories_view(stories@) =~= ralph_stories_view(prev).push(s@));
        assert(crate::spec::types::stories_view(parsed@).take(i + 1) =~= crate::spec::types::stories_view(
            parsed@,
        ).take(i as int).push(parsed@[i as int]@));
        i += 1;
    }
    assert(crate::spec::types::stories_view(parsed@).take(parsed@.len() as int)
        == crate::spec::types::stories_view(parsed@));
    Ok(stories)
}

// ============================================================================
// Requirements files: user stories and scenarios
// ============================================================================

/// State of the line-by-line scan of a requirements file for user stories.
pub struct RalphScan {
    /// Finished user stories.
    pub stories: Seq<UserStoryView>,
    /// Finished scenarios.
    pub scenarios: Seq<PendingView>,
    /// `(scenario name, story id)` links, in the order they were made.
    pub links: Seq<(Seq<char>, Seq<char>)>,
    /// The user story being read.
    pub current_story: Option<UserStoryView>,
    /// The scenario being read.
    pub current: Option<PendingView>,
    /// Whether step lines belong to a scenario.
    pub in_scenario: bool,
}

/// Finishes the pending scenario: it is added to the scenarios, and linked
/// to the story being read, if any; with `add_criterion`, its name also
/// becomes an acceptance criterion of that story.
pub open spec fn close_scenario_r(st: RalphScan, add_criterion: bool) -> RalphScan {
    match st.current {
        None => st,
        Some(p) => match st.current_story {
            Some(s) => RalphScan {
                scenarios: st.scenarios.push(p),
                links: st.links.push((p.name, s.id)),
                current_story: Some(
                    if add_criterion {
                        UserStoryView { acceptance_criteria: s.acceptance_criteria.push(p.name), ..s }
                    } else {
                        s
                    },
                ),
                current: None,
                ..st
            },
            None => RalphScan { scenarios: st.scenarios.push(p), current: None, ..st },
        },
    }
}

/// Finishes the user story being read.
pub open spec fn close_story_r(st: RalphScan) -> RalphScan {
    match st.current_story {
        Some(s) => RalphScan { stories: st.stories.push(s), current_story: None, ..st },
        None => st,
    }
}

/// A new user story for a requirement title.
pub open spec fn new_user_story(title: Seq<char>) -> UserStoryView {
    UserStoryView {
        id: requirement_id(title),
        title,
        description: Seq::empty(),
        acceptance_criteria: Seq::empty(),
        priority: Priority::Medium,
        passed: false,
    }
}

/// One line of a requirements file. A requirement header finishes the pending
/// scenario (without making it an acceptance criterion) and the story, and
/// opens a story; a scenario header finishes the pending scenario and opens
/// one; step lines go to the open scenario; outside scenarios, the first
/// line starting with "The " describes the story.
pub open spec fn ralph_step(st: RalphScan, line: Seq<char>) -> RalphScan {
    let t = trim(line);
    match strip_prefix(t, "### Requirement: "@) {
        Some(rest) => {
            let st1 = close_story_r(close_scenario_r(st, false));
            RalphScan {
                current_story: Some(new_user_story(trim(rest))),
                in_scenario: false,
                ..st1
            }
        },
        None => match strip_prefix(t, "#### Scenario: "@) {
            Some(rest) => {
                let st1 = close_scenario_r(st, true);
                RalphScan {
                    current: Some(
                        PendingView {
                            name: trim(rest),
                            given: Seq::empty(),
                            when: Seq::empty(),
                            then_steps: Seq::empty(),
                        },
                    ),
                    in_scenario: true,
                    ..st1
                }
            },
            None => if st.in_scenario {
                match st.current {
                    Some(p) => RalphScan { current: Some(add_step(p, t)), ..st },
                    None => st,
                }
            } else {
                match st.current_story {
                    Some(s) => if starts_with(t, "The "@) && s.description.len() == 0 {
                        RalphScan {
                            current_story: Some(UserStoryView { description: t, ..s }),
                            ..st
                        }
                    } else {
                        st
                    },
                    None => st,
                }
            },
        },
    }
}

/// The scan of a sequence of lines.
pub open spec fn ralph_scan(ls: Seq<Seq<char>>) -> RalphScan
    decreases ls.len(),
{
    if ls.len() == 0 {
        RalphScan {
            stories: Seq::empty(),
            scenarios: Seq::empty(),
            links: Seq::empty(),
            current_story: None,
            current: None,
            in_scenario: false,
        }
    } else {
        ralph_step(ralph_scan(ls.drop_last()), ls.last())
    }
}

/// The user stories, scenarios and scenario-to-story links of a requirements
/// file.
pub open spec fn parse_user_stories(content: Seq<char>) -> RalphScan {
    close_story_r(close_scenario_r(ralph_scan(lines(content)), true))
}

/// The trimmed titles of the `### Requirement:` headers among the lines, in order.
pub open spec fn requirement_titles(ls: Seq<Seq<char>>) -> Seq<Seq<char>>
    decreases ls.len(),
{
    if ls.len() == 0 {
        Seq::empty()
    } else {
        let prev = requirement_titles(ls.drop_last());
        match strip_prefix(trim(ls.last()), "### Requirement: "@) {
            Some(rest) => prev.push(trim(rest)),
            None => prev,
        }
    }
}

/// The trimmed names of the `#### Scenario:` headers among the lines, in order.
pub open spec fn scenario_titles(ls: Seq<Seq<char>>) -> Seq<Seq<char>>
    decreases ls.len(),
{
    if ls.len() == 0 {
        Seq::empty()
    } else {
        let prev = scenario_titles(ls.drop_last());
        let t = trim(ls.last());
        if strip_prefix(t, "### Requirement: "@) is Some {
            prev
        } else {
            match strip_prefix(t, "#### Scenario: "@) {
                Some(rest) => prev.push(trim(rest)),
                None => prev,
            }
        }
    }
}

/// The user stories agree, one for one and in order, with the requirement
/// titles: each has the title and the id derived from it.
pub open spec fn stories_match_titles(s: Seq<UserStoryView>, t: Seq<Seq<char>>) -> bool {
    &&& s.len() == t.len()
    &&& forall|i: int| 0 <= i < s.len() ==> #[trigger] s[i].title == t[i] && s[i].id == requirement_id(t[i])
}

/// The scenarios agree, one for one and in order, with the scenario names.
pub open spec fn pending_match_titles(s: Seq<PendingView>, t: Seq<Seq<char>>) -> bool {
    &&& s.len() == t.len()
    &&& forall|i: int| 0 <= i < s.len() ==> #[trigger] s[i].name == t[i]
}

spec fn with_story(s: Seq<UserStoryView>, o: Option<UserStoryView>) -> Seq<UserStoryView> {
    match o {
        Some(x) => s.push(x),
        None => s,
    }
}

spec fn with_pending(s: Seq<PendingView>, o: Option<PendingView>) -> Seq<PendingView> {
    match o {
        Some(x) => s.push(x),
        None => s,
    }
}

spec fn ralph_scan_matches(ls: Seq<Seq<char>>) -> bool {
    let st = ralph_scan(ls);
    &&& stories_match_titles(with_story(st.stories, st.current_story), requirement_titles(ls))
    &&& pending_match_titles(with_pending(st.scenarios, st.current), scenario_titles(ls))
}

proof fn lemma_close_scenario_r_keeps(st: RalphScan, b: bool)
    ensures
        ({
            let r = close_scenario_r(st, b);
            &&& r.current is None
            &&& with_pending(r.scenarios, r.current) == with_pending(st.scenarios, st.current)
            &&& r.stories == st.stories
            &&& r.in_scenario == st.in_scenario
            &&& (r.current_story is Some <==> st.current_story is Some)
            &&& (st.current_story matches Some(s) ==> (r.current_story->0.id == s.id
                && r.current_story->0.title == s.title && r.current_story->0.description
                == s.description))
        }),
{
}

proof fn lemma_ralph_scan_matches(ls: Seq<Seq<char>>)
    ensures
        ralph_scan_matches(ls),
    decreases ls.len(),
{
    if ls.len() > 0 {
        let pl = ls.drop_last();
        lemma_ralph_scan_matches(pl);
        let st = ralph_scan(pl);
        let nst = ralph_scan(ls);
        let t = trim(ls.last());
        let ws = with_story(st.stories, st.current_story);
        let nws = with_story(nst.stories, nst.current_story);
        let wp = with_pending(st.scenarios, st.current);
        let nwp = with_pending(nst.scenarios, nst.current);
        assert(nst == ralph_step(st, ls.last()));
        match strip_prefix(t, "### Requirement: "@) {
            Some(rest) => {
                lemma_close_scenario_r_keeps(st, false);
                let st0 = close_scenario_r(st, false);
                let st1 = close_story_r(st0);
                let u = new_user_story(trim(rest));
                assert(requirement_titles(ls) == requirement_titles(pl).push(trim(rest)));
                assert(scenario_titles(ls) == scenario_titles(pl));
                assert(nst.stories == with_story(st0.stories, st0.current_story));
                assert(nws == nst.stories.push(u));
                assert(nws.len() == ws.len() + 1);
                let w0 = with_story(st0.stories, st0.current_story);
                assert(nws == w0.push(u));
                assert forall|i: int| 0 <= i < nws.len() implies #[trigger] nws[i].title
                    == requirement_titles(ls)[i] && nws[i].id == requirement_id(requirement_titles(ls)[i]) by {
                    if i < st.stories.len() {
                        assert(nws[i] == ws[i]);
                    } else if i < w0.len() {
                        assert(nws[i] == st0.current_story->0);
                        assert(ws[i] == st.current_story->0);
                    }
                }
                assert(nwp == with_pending(st0.scenarios, st0.current));
            },
            None => match strip_prefix(t, "#### Scenario: "@) {
                Some(rest) => {
                    lemma_close_scenario_r_keeps(st, true);
                    let st1 = close_scenario_r(st, true);
                    assert(requirement_titles(ls) == requirement_titles(pl));
                    assert(scenario_titles(ls) == scenario_titles(pl).push(trim(rest)));
                    assert(nst.stories == st.stories);
                    assert(nst.current_story == st1.current_story);
                    assert(nws.len() == ws.len());
                    assert forall|i: int| 0 <= i < nws.len() implies #[trigger] nws[i].title
                        == requirement_titles(ls)[i] && nws[i].id == requirement_id(requirement_titles(ls)[i]) by {
                        if i < st.stories.len() {
                            assert(nws[i] == ws[i]);
                        } else {
                            assert(nws[i] == st1.current_story->0);
                            assert(ws[i] == st.current_story->0);
                        }
                    }
                    assert(nst.scenarios == with_pending(st.scenarios, st.current));
                    assert(nwp.len() == wp.len() + 1);
                    assert forall|i: int| 0 <= i < nwp.len() implies #[trigger] nwp[i].name
                        == scenario_titles(ls)[i] by {
                        if i < wp.len() {
                            assert(nwp[i] == wp[i]);
                        }
                    }
                },
                None => {
                    assert(requirement_titles(ls) == requirement_titles(pl));
                    assert(scenario_titles(ls) == scenario_titles(pl));
                    assert(nst.stories == st.stories);
                    assert(nst.scenarios == st.scenarios);
                    assert(nws.len() == ws.len());
                    assert forall|i: int| 0 <= i < nws.len() implies #[trigger] nws[i].title
                        == requirement_titles(ls)[i] && nws[i].id == requirement_id(requirement_titles(ls)[i]) by {
                        if i < st.stories.len() {
                            assert(nws[i] == ws[i]);
                        } else {
                            assert(nws[i] == nst.current_story->0);
                            assert(ws[i] == st.current_story->0);
                        }
                    }
                    assert(nwp.len() == wp.len());
                    assert forall|i: int| 0 <= i < nwp.len() implies #[trigger] nwp[i].name
                        == scenario_titles(ls)[i] by {
                        if i < st.scenarios.len() {
                            assert(nwp[i] == wp[i]);
                        } else {
                            assert(nwp[i] == nst.current->0);
                            assert(wp[i] == st.current->0);
                        }
                    }
                },
            },
        }
        assert(stories_match_titles(nws, requirement_titles(ls)));
        assert(pending_match_titles(nwp, scenario_titles(ls)));
    }
}

/// Each `### Requirement: Title` line of a requirements file gives exactly
/// one user story, in the order of those lines, with that title and the id
/// derived from it; and each `#### Scenario: Name` line gives exactly one
/// scenario, in order, with that name.
pub proof fn law_one_user_story_per_requirement(content: Seq<char>)
    ensures
        stories_match_titles(parse_user_stories(content).stories, requirement_titles(lines(content))),
        pending_match_titles(parse_user_stories(content).scenarios, scenario_titles(lines(content))),
{
    let st = ralph_scan(lines(content));
    lemma_ralph_scan_matches(lines(content));
    lemma_close_scenario_r_keeps(st, true);
    let r = close_scenario_r(st, true);
    let ws = with_story(st.stories, st.current_story);
    let out = parse_user_stories(content).stories;
    assert(out == with_story(r.stories, r.current_story));
    assert(out.len() == ws.len());
    assert forall|i: int| 0 <= i < out.len() implies #[trigger] out[i].title == ws[i].title
        && out[i].id == ws[i].id by {
        if i < st.stories.len() {
            assert(out[i] == ws[i]);
        } else {
            assert(out[i] == r.current_story->0);
            assert(ws[i] == st.current_story->0);
        }
    }
}

/// The view of an optional user story.
pub open spec fn opt_story(o: Option<UserStory>) -> Option<UserStoryView> {
    match o {
        Some(s) => Some(s@),
        None => None,
    }
}

/// The view of an optional pending scenario.
pub open spec fn opt_pending(o: Option<Pending>) -> Option<PendingView> {
    match o {
        Some(p) => Some(p@),
        None => None,
    }
}

/// The scan state held by the parser's variables.
pub open spec fn scan_of(
    us: Seq<UserStory>,
    sc: Seq<Scenario>,
    ln: Seq<(String, String)>,
    cs: Option<UserStory>,
    cur: Option<Pending>,
    ins: bool,
) -> RalphScan {
    RalphScan {
        stories: user_stories_view(us),
        scenarios: ralph_scenarios_view(sc),
        links: pairs_view(ln),
        current_story: opt_story(cs),
        current: opt_pending(cur),
        in_scenario: ins,
    }
}

fn close_scenario_exec(
    us: &Vec<UserStory>,
    sc: &mut Vec<Scenario>,
    ln: &mut Vec<(String, String)>,
    cs: &mut Option<UserStory>,
    cur: Option<Pending>,
    ins: bool,
    add_criterion: bool,
)
    ensures
        scan_of(us@, final(sc)@, final(ln)@, *final(cs), None, ins) == close_scenario_r(
            scan_of(us@, old(sc)@, old(ln)@, *old(cs), cur, ins),
            add_criterion,
        ),
{
    match cur {
        None => {},
        Some(p) => {
            let ghost pv = p@;
            let ghost sc0 = sc@;
            let ghost ln0 = ln@;
            let name = p.name.clone();
            let s = Scenario { name: p.name, given: p.given, when: p.when, then_steps: p.then_steps };
            assert(s@ == pv);
            sc.push(s);
            assert(ralph_scenarios_view(sc@) =~= ralph_scenarios_view(sc0).push(pv));
            match cs {
                Some(story) => {
                    ln.push((name.clone(), story.id.clone()));
                    assert(pairs_view(ln@) =~= pairs_view(ln0).push((pv.name, story@.id)));
                    if add_criterion {
                        let ghost crit0 = story.acceptance_criteria@;
                        story.acceptance_criteria.push(name);
                        assert(strs(story.acceptance_criteria@) =~= strs(crit0).push(pv.name));
                    }
                },
                None => {},
            }
        },
    }
}

fn close_story_exec(us: &mut Vec<UserStory>, cs: Option<UserStory>)
    ensures
        user_stories_view(final(us)@) == match opt_story(cs) {
            Some(s) => user_stories_view(old(us)@).push(s),
            None => user_stories_view(old(us)@),
        },
{
    match cs {
        Some(s) => {
            let ghost us0 = us@;
            let ghost sv = s@;
            us.push(s);
            assert(user_stories_view(us@) =~= user_stories_view(us0).push(sv));
        },
        None => {},
    }
}

proof fn lemma_ralph_scan_step(l: Seq<Seq<char>>, i: int)
    requires
        0 <= i < l.len(),
    ensures
        ralph_scan(l.take(i + 1)) == ralph_step(ralph_scan(l.take(i)), l[i]),
{
    assert(l.take(i + 1).drop_last() == l.take(i));
    assert(l.take(i + 1).last() == l[i]);
}

/// Parses a requirements file into user stories (one per `### Requirement:`),
/// scenarios (one per `#### Scenario:`) and the links from scenario names to
/// the stories they belong to. A scenario becomes an acceptance criterion of
/// its story when the next scenario or the end of the file finishes it.
pub fn parse_spec_md(content: &str) -> (r: Result<
    (Vec<UserStory>, Vec<Scenario>, Vec<(String, String)>),
    Error,
>)
    ensures
        r matches Ok((us, sc, ln)) && {
            let st = parse_user_stories(content@);
            &&& user_stories_view(us@) == st.stories
            &&& ralph_scenarios_view(sc@) == st.scenarios
            &&& pairs_view(ln@) == st.links
        },
{
    let chars = chars_of(content);
    let ls = lines_of(&chars);
    let req_header = chars_of("### Requirement: ");
    let scen_header = chars_of("#### Scenario: ");
    let the = chars_of("The ");
    let mut us: Vec<UserStory> = Vec::new();
    let mut sc: Vec<Scenario> = Vec::new();
    let mut ln: Vec<(String, String)> = Vec::new();
    let mut cs: Option<UserStory> = None;
    let mut cur: Option<Pending> = None;
    let mut ins = false;
    let mut i: usize = 0;
    assert(views(ls@).take(0) == Seq::<Seq<char>>::empty());
    assert(user_stories_view(us@) =~= Seq::<UserStoryView>::empty());
    assert(ralph_scenarios_view(sc@) =~= Seq::<PendingView>::empty());
    assert(pairs_view(ln@) =~= Seq::<(Seq<char>, Seq<char>)>::empty());
    assert(views(ls@).take(0) =~= Seq::<Seq<char>>::empty());
    while i < ls.len()
        invariant
            i <= ls@.len(),
            views(ls@) == lines(content@),
            req_header@ == "### Requirement: "@,
            scen_header@ == "#### Scenario: "@,
            the@ == "The "@,
            scan_of(us@, sc@, ln@, cs, cur, ins) == ralph_scan(views(ls@).take(i as int)),
        decreases ls@.len() - i,
    {
        proof {
            lemma_ralph_scan_step(views(ls@), i as int);
        }
        let t = trim_chars(&ls[i]);
        match strip_prefix_chars(&t, &req_header) {
            Some(rest) => {
                let taken = cur.take();
                close_scenario_exec(&us, &mut sc, &mut ln, &mut cs, taken, ins, false);
                let story = cs.take();
                close_story_exec(&mut us, story);
                let title = string_of(&trim_chars(&rest));
                let id = requirement_id_of(title.as_str());
                let u = UserStory {
                    id,
                    title,
                    description: String::new(),
                    acceptance_criteria: Vec::new(),
                    priority: Priority::Medium,
                    passed: false,
                };
                assert(strs(u.acceptance_criteria@) =~= Seq::<Seq<char>>::empty());
                cs = Some(u);
                ins = false;
            },
            None => match strip_prefix_chars(&t, &scen_header) {
                Some(rest) => {
                    let taken = cur.take();
                    close_scenario_exec(&us, &mut sc, &mut ln, &mut cs, taken, ins, true);
                    let name = string_of(&trim_chars(&rest));
                    let p = Pending {
                        name,
                        given: Vec::new(),
                        when: String::new(),
                        then_steps: Vec::new(),
                    };
                    assert(strs(p.given@) =~= Seq::<Seq<char>>::empty());
                    assert(strs(p.then_steps@) =~= Seq::<Seq<char>>::empty());
                    cur = Some(p);
                    ins = true;
                },
                None => {
                    if ins {
                        let taken = cur.take();
                        match taken {
                            Some(p) => {
                                cur = Some(add_step_exec(p, &t));
                            },
                            None => {},
                        }
                    } else {
                        match &mut cs {
                            Some(s) => {
                                if starts_with_chars(&t, &the) && s.description.as_str().is_empty() {
                                    s.description = string_of(&t);
                                }
                            },
                            None => {},
                        }
                    }
                },
            },
        }
        i += 1;
    }
    assert(views(ls@).take(ls@.len() as int) == views(ls@));
    let taken = cur.take();
    close_scenario_exec(&us, &mut sc, &mut ln, &mut cs, taken, ins, true);
    let story = cs.take();
    close_story_exec(&mut us, story);
    Ok((us, sc, ln))
}

// ============================================================================
// Adapter
// ============================================================================

/// The user stories, scenarios and links of all spec files, in order.
pub open spec fn parse_spec_files_r(files: Seq<(String, String)>) -> RalphScan
    decreases files.len(),
{
    if files.len() == 0 {
        RalphScan {
            stories: Seq::empty(),
            scenarios: Seq::empty(),
            links: Seq::empty(),
            current_story: None,
            current: None,
            in_scenario: false,
        }
    } else {
        let prev = parse_spec_files_r(files.drop_last());
        let last = parse_user_stories(files.last().1@);
        RalphScan {
            stories: prev.stories + last.stories,
            scenarios: prev.scenarios + last.scenarios,
            links: prev.links + last.links,
            ..prev
        }
    }
}

/// Abstract value of an [`OpenSpecAdapter`].
pub struct RalphAdapterView {
    pub change_name: Seq<char>,
    pub change_dir: Seq<char>,
    pub stories: Seq<StoryView>,
    pub user_stories: Seq<UserStoryView>,
    pub scenarios: Seq<PendingView>,
    pub links: Seq<(Seq<char>, Seq<char>)>,
}

/// OpenSpec adapter that provides Ralph domain types from a change's files.
pub struct OpenSpecAdapter {
    change_name: String,
    change_dir: String,
    stories: Vec<Story>,
    user_stories: Vec<UserStory>,
    scenarios: Vec<Scenario>,
    scenario_to_story: Vec<(String, String)>,
}

impl View for OpenSpecAdapter {
    type V = RalphAdapterView;

    closed spec fn view(&self) -> RalphAdapterView {
        RalphAdapterView {
            change_name: self.change_name@,
            change_dir: self.change_dir@,
            stories: ralph_stories_view(self.stories@),
            user_stories: user_stories_view(self.user_stories@),
            scenarios: ralph_scenarios_view(self.scenarios@),
            links: pairs_view(self.scenario_to_story@),
        }
    }
}

/// The story a scenario belongs to: the last link made for its name.
pub open spec fn link_of(links: Seq<(Seq<char>, Seq<char>)>, name: Seq<char>) -> Option<Seq<char>>
    decreases links.len(),
{
    if links.len() == 0 {
        None
    } else if links.last().0 == name {
        Some(links.last().1)
    } else {
        link_of(links.drop_last(), name)
    }
}

/// Whether a position holds a task.
pub open spec fn valid_pos(s: Seq<StoryView>, i: int, j: int) -> bool {
    0 <= i < s.len() && 0 <= j < s[i].tasks.len()
}

/// Whether position `(i1, j1)` comes before `(i2, j2)` in story order.
pub open spec fn pos_before(i1: int, j1: int, i2: int, j2: int) -> bool {
    i1 < i2 || (i1 == i2 && j1 < j2)
}

/// Whether `(i, j)` is the first task, in story order, that satisfies `f`.
pub open spec fn first_task_pos(s: Seq<StoryView>, f: spec_fn(TaskView) -> bool, i: int, j: int) -> bool {
    &&& valid_pos(s, i, j)
    &&& f(s[i].tasks[j])
    &&& forall|a: int, b: int|
        #![trigger s[a].tasks[b]]
        valid_pos(s, a, b) && pos_before(a, b, i, j) ==> !f(s[a].tasks[b])
}

/// Whether no task satisfies `f`.
pub open spec fn no_task(s: Seq<StoryView>, f: spec_fn(TaskView) -> bool) -> bool {
    forall|a: int, b: int| #![trigger s[a].tasks[b]] valid_pos(s, a, b) ==> !f(s[a].tasks[b])
}

/// Tasks that are not complete.
pub open spec fn incomplete() -> spec_fn(TaskView) -> bool {
    |t: TaskView| !t.done
}

/// Tasks with the given id.
pub open spec fn has_id(id: Seq<char>) -> spec_fn(TaskView) -> bool {
    |t: TaskView| t.id == id
}

/// The stories with the task at `(i, j)` marked complete.
pub open spec fn set_done(s: Seq<StoryView>, i: int, j: int) -> Seq<StoryView> {
    s.update(i, StoryView { tasks: s[i].tasks.update(j, TaskView { done: true, ..s[i].tasks[j] }), ..s[i] })
}

/// Whether `i` is the first user story that satisfies `f`.
pub open spec fn first_story_pos(s: Seq<UserStoryView>, f: spec_fn(UserStoryView) -> bool, i: int) -> bool {
    &&& 0 <= i < s.len()
    &&& f(s[i])
    &&& forall|a: int| 0 <= a < i ==> !f(#[trigger] s[a])
}

/// User stories that have not passed.
pub open spec fn not_passed() -> spec_fn(UserStoryView) -> bool {
    |s: UserStoryView| !s.passed
}

/// User stories with the given id.
pub open spec fn story_has_id(id: Seq<char>) -> spec_fn(UserStoryView) -> bool {
    |s: UserStoryView| s.id == id
}

/// The scenarios among `ss` that are linked to a story, in order.
pub open spec fn linked_scenarios(
    ss: Seq<PendingView>,
    links: Seq<(Seq<char>, Seq<char>)>,
    story_id: Seq<char>,
) -> Seq<PendingView>
    decreases ss.len(),
{
    if ss.len() == 0 {
        Seq::empty()
    } else {
        let prev = linked_scenarios(ss.drop_last(), links, story_id);
        if link_of(links, ss.last().name) == Some(story_id) {
            prev.push(ss.last())
        } else {
            prev
        }
    }
}

/// The scenarios linked to a story, in order.
pub open spec fn scenarios_of(a: RalphAdapterView, story_id: Seq<char>) -> Seq<PendingView> {
    linked_scenarios(a.scenarios, a.links, story_id)
}

fn copy_ralph_stories(v: &Vec<Story>) -> (r: Vec<Story>)
    ensures
        ralph_stories_view(r@) == ralph_stories_view(v@),
{
    let mut r: Vec<Story> = Vec::new();
    let mut i: usize = 0;
    while i < v.len()
        invariant
            i <= v@.len(),
            ralph_stories_view(r@) == ralph_stories_view(v@).take(i as int),
        decreases v@.len() - i,
    {
        let s = copy_ralph_story(&v[i]);
        let ghost prev = r@;
        r.push(s);
        assert(ralph_stories_view(r@) =~= ralph_stories_view(prev).push(s@));
        assert(ralph_stories_view(v@).take(i + 1) =~= ralph_stories_view(v@).take(i as int).push(
            v@[i as int]@,
        ));
        i += 1;
    }
    assert(ralph_stories_view(v@).take(v@.len() as int) == ralph_stories_view(v@));
    r
}

fn copy_ralph_story(s: &Story) -> (r: Story)
    ensures
        r@ == s@,
{
    let mut tasks: Vec<Task> = Vec::new();
    let mut i: usize = 0;
    while i < s.tasks.len()
        invariant
            i <= s.tasks@.len(),
            ralph_tasks_view(tasks@) == s@.tasks.take(i as int),
        decreases s.tasks@.len() - i,
    {
        let t = copy_ralph_task(&s.tasks[i]);
        let ghost prev = tasks@;
        tasks.push(t);
        assert(ralph_tasks_view(tasks@) =~= ralph_tasks_view(prev).push(t@));
        assert(s@.tasks.take(i + 1) =~= s@.tasks.take(i as int).push(s@.tasks[i as int]));
        i += 1;
    }
    assert(s@.tasks.take(s@.tasks.len() as int) == s@.tasks);
    Story { id: s.id.clone(), title: s.title.clone(), tasks }
}

fn copy_ralph_task(t: &Task) -> (r: Task)
    ensures
        r@ == t@,
{
    Task { id: t.id.clone(), description: t.description.clone(), complete: t.complete }
}

fn copy_ralph_scenario(s: &Scenario) -> (r: Scenario)
    ensures
        r@ == s@,
{
    Scenario {
        name: s.name.clone(),
        given: crate::spec::types::copy_strings(&s.given),
        when: s.when.clone(),
        then_steps: crate::spec::types::copy_strings(&s.then_steps),
    }
}

fn copy_user_stories(v: &Vec<UserStory>) -> (r: Vec<UserStory>)
    ensures
        user_stories_view(r@) == user_stories_view(v@),
{
    let mut r: Vec<UserStory> = Vec::new();
    let mut i: usize = 0;
    while i < v.len()
        invariant
            i <= v@.len(),
            user_stories_view(r@) == user_stories_view(v@).take(i as int),
        decreases v@.len() - i,
    {
        let s = v[i].copy();
        let ghost prev = r@;
        r.push(s);
        assert(user_stories_view(r@) =~= user_stories_view(prev).push(s@));
        assert(user_stories_view(v@).take(i + 1) =~= user_stories_view(v@).take(i as int).push(
            v@[i as int]@,
        ));
        i += 1;
    }
    assert(user_stories_view(v@).take(v@.len() as int) == user_stories_view(v@));
    r
}

impl OpenSpecAdapter {
    /// Creates the adapter for a change from the change's files: parses
    /// `tasks.md` and every requirements file.
    pub fn new(change_name: &str, files: ChangeFiles) -> (r: Result<Self, Error>)
        ensures
            r matches Ok(a) && {
                let st = parse_spec_files_r(files.spec_files@);
                &&& a@.change_name == change_name@
                &&& a@.change_dir == files.change_dir@
                &&& a@.stories == change_stories(files.tasks_md)
                &&& a@.user_stories == st.stories
                &&& a@.scenarios == st.scenarios
                &&& a@.links == st.links
            },
    {
        let stories = match &files.tasks_md {
            Some(c) => match parse_tasks_md(c.as_str()) {
                Ok(s) => s,
                Err(e) => return Err(e),
            },
            None => Vec::new(),
        };
        assert(ralph_stories_view(stories@) == change_stories(files.tasks_md));
        let mut user_stories: Vec<UserStory> = Vec::new();
        let mut scenarios: Vec<Scenario> = Vec::new();
        let mut links: Vec<(String, String)> = Vec::new();
        let mut i: usize = 0;
        while i < files.spec_files.len()
            invariant
                i <= files.spec_files@.len(),
                ({
                    let st = parse_spec_files_r(files.spec_files@.take(i as int));
                    &&& user_stories_view(user_stories@) == st.stories
                    &&& ralph_scenarios_view(scenarios@) == st.scenarios
                    &&& pairs_view(links@) == st.links
                }),
            decreases files.spec_files@.len() - i,
        {
            let (_cap, content) = &files.spec_files[i];
            let (mut us, mut sc, mut ln) = match parse_spec_md(content.as_str()) {
                Ok(p) => p,
                Err(e) => return Err(e),
            };
            let ghost (us0, sc0, ln0) = (user_stories@, scenarios@, links@);
            let ghost (usv, scv, lnv) = (user_stories_view(us@), ralph_scenarios_view(sc@), pairs_view(ln@));
            user_stories.append(&mut us);
            scenarios.append(&mut sc);
            links.append(&mut ln);
            assert(user_stories_view(user_stories@) =~= user_stories_view(us0) + usv);
            assert(ralph_scenarios_view(scenarios@) =~= ralph_scenarios_view(sc0) + scv);
            assert(pairs_view(links@) =~= pairs_view(ln0) + lnv);
            assert(files.spec_files@.take(i + 1).drop_last() == files.spec_files@.take(i as int));
            i += 1;
        }
        assert(files.spec_files@.take(files.spec_files@.len() as int) == files.spec_files@);
        Ok(
            OpenSpecAdapter {
                change_name: change_name.to_owned(),
                change_dir: files.change_dir,
                stories,
                user_stories,
                scenarios,
                scenario_to_story: links,
            },
        )
    }

    /// Returns the change name.
    pub fn change_name(&self) -> (n: &str)
        ensures
            n@ == self@.change_name,
    {
        self.change_name.as_str()
    }

    /// Returns the change directory path.
    pub fn change_dir(&self) -> (d: &str)
        ensures
            d@ == self@.change_dir,
    {
        self.change_dir.as_str()
    }

    /// Whether a change is complete, by the status that `openspec status`
    /// reported for it.
    pub fn is_complete(status: &StatusResponse) -> (b: bool)
        ensures
            b == status.is_complete,
    {
        status.is_complete
    }

    /// The position of the first task that is not complete.
    fn first_incomplete_task(&self) -> (r: Option<(usize, usize)>)
        ensures
            match r {
                Some((i, j)) => first_task_pos(self@.stories, incomplete(), i as int, j as int),
                None => no_task(self@.stories, incomplete()),
            },
    {
        let ghost s = self@.stories;
        let mut i: usize = 0;
        while i < self.stories.len()
            invariant
                i <= self.stories@.len(),
                s == self@.stories,
                s == ralph_stories_view(self.stories@),
                forall|a: int, b: int|
                    #![trigger s[a].tasks[b]]
                    valid_pos(s, a, b) && a < i ==> s[a].tasks[b].done,
            decreases self.stories@.len() - i,
        {
            let story = &self.stories[i];
            assert(s[i as int] == story@);
            let mut j: usize = 0;
            while j < story.tasks.len()
                invariant
                    i < self.stories@.len(),
                    j <= story.tasks@.len(),
                    s == ralph_stories_view(self.stories@),
                    s[i as int] == story@,
                    forall|a: int, b: int|
                        #![trigger s[a].tasks[b]]
                        valid_pos(s, a, b) && a < i ==> s[a].tasks[b].done,
                    forall|b: int| 0 <= b < j ==> (#[trigger] s[i as int].tasks[b]).done,
                decreases story.tasks@.len() - j,
            {
                assert(s[i as int].tasks[j as int] == story.tasks@[j as int]@);
                if !story.tasks[j].complete {
                    return Some((i, j));
                }
                j += 1;
            }
            i += 1;
        }
        None
    }

    /// The position of the first task with the given id.
    fn find_task(&self, task_id: &str) -> (r: Option<(usize, usize)>)
        ensures
            match r {
                Some((i, j)) => first_task_pos(self@.stories, has_id(task_id@), i as int, j as int),
                None => no_task(self@.stories, has_id(task_id@)),
            },
    {
        let ghost s = self@.stories;
        let mut i: usize = 0;
        while i < self.stories.len()
            invariant
                i <= self.stories@.len(),
                s == self@.stories,
                s == ralph_stories_view(self.stories@),
                forall|a: int, b: int|
                    #![trigger s[a].tasks[b]]
                    valid_pos(s, a, b) && a < i ==> s[a].tasks[b].id != task_id@,
            decreases self.stories@.len() - i,
        {
            let story = &self.stories[i];
            assert(s[i as int] == story@);
            let mut j: usize = 0;
            while j < story.tasks.len()
                invariant
                    i < self.stories@.len(),
                    j <= story.tasks@.len(),
                    s == ralph_stories_view(self.stories@),
                    s[i as int] == story@,
                    forall|a: int, b: int|
                        #![trigger s[a].tasks[b]]
                        valid_pos(s, a, b) && a < i ==> s[a].tasks[b].id != task_id@,
                    forall|b: int| 0 <= b < j ==> (#[trigger] s[i as int].tasks[b]).id != task_id@,
                decreases story.tasks@.len() - j,
            {
                assert(s[i as int].tasks[j as int] == story.tasks@[j as int]@);
                if str_eq(story.tasks[j].id.as_str(), task_id) {
                    return Some((i, j));
                }
                j += 1;
            }
            i += 1;
        }
        None
    }
}

impl TaskSource for OpenSpecAdapter {
    type Error = Error;

    fn list_tasks(&self) -> (r: Result<Vec<Story>, Error>)
        ensures
            r matches Ok(v) && ralph_stories_view(v@) == self@.stories,
    {
        Ok(copy_ralph_stories(&self.stories))
    }

    fn next_task(&self) -> (r: Result<Option<Task>, Error>)
        ensures
            r matches Ok(o) && match o {
                Some(t) => exists|i: int, j: int| #[trigger]
                    first_task_pos(self@.stories, incomplete(), i, j) && t@ == self@.stories[i].tasks[j],
                None => no_task(self@.stories, incomplete()),
            },
    {
        match self.first_incomplete_task() {
            Some((i, j)) => {
                let t = copy_ralph_task(&self.stories[i].tasks[j]);
                assert(self@.stories[i as int].tasks[j as int] == self.stories@[i as int].tasks@[j as int]@);
                Ok(Some(t))
            },
            None => Ok(None),
        }
    }

    fn mark_complete(&mut self, task_id: &str) -> (r: Result<(), Error>)
        ensures
            final(self)@.change_name == old(self)@.change_name,
            final(self)@.change_dir == old(self)@.change_dir,
            final(self)@.user_stories == old(self)@.user_stories,
            final(self)@.scenarios == old(self)@.scenarios,
            final(self)@.links == old(self)@.links,
            (exists|i: int, j: int| first_task_pos(old(self)@.stories, has_id(task_id@), i, j))
                ==> r is Ok,
            r is Ok ==> exists|i: int, j: int| #[trigger]
                first_task_pos(old(self)@.stories, has_id(task_id@), i, j) && final(self)@.stories
                    == set_done(old(self)@.stories, i, j),
            r is Err ==> no_task(old(self)@.stories, has_id(task_id@)) && final(self)@ == old(self)@
                && (r matches Err(Error::TaskNotFound(id)) && id@ == task_id@),
    {
        match self.find_task(task_id) {
            Some((i, j)) => {
                let ghost s0 = self@.stories;
                let mut story = self.stories.remove(i);
                let mut task = story.tasks.remove(j);
                task.complete = true;
                story.tasks.insert(j, task);
                self.stories.insert(i, story);
                assert(ralph_stories_view(self.stories@) =~= set_done(s0, i as int, j as int)) by {
                    assert(ralph_tasks_view(story.tasks@) =~= s0[i as int].tasks.update(
                        j as int,
                        TaskView { done: true, ..s0[i as int].tasks[j as int] },
                    ));
                }
                Ok(())
            },
            None => {
                proof {
                    if exists|i: int, j: int| first_task_pos(self@.stories, has_id(task_id@), i, j) {
                        let (i, j) = choose|i: int, j: int|
                            first_task_pos(self@.stories, has_id(task_id@), i, j);
                        assert(has_id(task_id@)(self@.stories[i].tasks[j]));
                    }
                }
                Err(Error::TaskNotFound(task_id.to_owned()))
            },
        }
    }
}

impl StoryProvider for OpenSpecAdapter {
    type Error = Error;

    fn list_stories(&self) -> (r: Result<Vec<UserStory>, Error>)
        ensures
            r matches Ok(v) && user_stories_view(v@) == self@.user_stories,
    {
        Ok(copy_user_stories(&self.user_stories))
    }

    fn next_story(&self) -> (r: Result<Option<UserStory>, Error>)
        ensures
            r matches Ok(o) && match o {
                Some(s) => exists|i: int| #[trigger]
                    first_story_pos(self@.user_stories, not_passed(), i) && s@ == self@.user_stories[i],
                None => forall|a: int| 0 <= a < self@.user_stories.len() ==> (#[trigger] self@.user_stories[a]).passed,
            },
    {
        let ghost s = self@.user_stories;
        let mut i: usize = 0;
        while i < self.user_stories.len()
            invariant
                i <= self.user_stories@.len(),
                s == self@.user_stories,
                s == user_stories_view(self.user_stories@),
                forall|a: int| 0 <= a < i ==> (#[trigger] s[a]).passed,
            decreases self.user_stories@.len() - i,
        {
            assert(s[i as int] == self.user_stories@[i as int]@);
            if !self.user_stories[i].passed {
                let c = self.user_stories[i].copy();
                assert(first_story_pos(s, not_passed(), i as int));
                return Ok(Some(c));
            }
            i += 1;
        }
        Ok(None)
    }

    fn mark_passed(&mut self, story_id: &str) -> (r: Result<(), Error>)
        ensures
            final(self)@.change_name == old(self)@.change_name,
            final(self)@.change_dir == old(self)@.change_dir,
            final(self)@.stories == old(self)@.stories,
            final(self)@.scenarios == old(self)@.scenarios,
            final(self)@.links == old(self)@.links,
            match r {
                Ok(()) => exists|i: int| #[trigger]
                    first_story_pos(old(self)@.user_stories, story_has_id(story_id@), i)
                        && final(self)@.user_stories == old(self)@.user_stories.update(
                        i,
                        UserStoryView { passed: true, ..old(self)@.user_stories[i] },
                    ),
                Err(e) => (forall|a: int|
                    0 <= a < old(self)@.user_stories.len() ==> (#[trigger] old(self)@.user_stories[a]).id
                        != story_id@) && final(self)@ == old(self)@ && (e matches Error::StoryNotFound(
                    id,
                ) && id@ == story_id@),
            },
    {
        let ghost s = self@.user_stories;
        let mut i: usize = 0;
        while i < self.user_stories.len()
            invariant
                i <= self.user_stories@.len(),
                *self == *old(self),
                s == self@.user_stories,
                s == user_stories_view(self.user_stories@),
                forall|a: int| 0 <= a < i ==> (#[trigger] s[a]).id != story_id@,
            decreases self.user_stories@.len() - i,
        {
            assert(s[i as int] == self.user_stories@[i as int]@);
            if str_eq(self.user_stories[i].id.as_str(), story_id) {
                let mut u = self.user_stories.remove(i);
                u.passed = true;
                self.user_stories.insert(i, u);
                assert(first_story_pos(s, story_has_id(story_id@), i as int));
                assert(user_stories_view(self.user_stories@) =~= s.update(
                    i as int,
                    UserStoryView { passed: true, ..s[i as int] },
                ));
                return Ok(());
            }
            i += 1;
        }
        Err(Error::StoryNotFound(story_id.to_owned()))
    }
}

impl VerificationSource for OpenSpecAdapter {
    type Error = Error;

    fn scenarios_for(&self, story_id: &str) -> (r: Result<Vec<Scenario>, Error>)
        ensures
            r matches Ok(v) && ralph_scenarios_view(v@) == scenarios_of(self@, story_id@),
    {
        let ghost a = self@;
        let mut result: Vec<Scenario> = Vec::new();
        let mut i: usize = 0;
        while i < self.scenarios.len()
            invariant
                i <= self.scenarios@.len(),
                a == self@,
                ralph_scenarios_view(result@) == linked_scenarios(
                    a.scenarios.take(i as int),
                    a.links,
                    story_id@,
                ),
            decreases self.scenarios@.len() - i,
        {
            let name = self.scenarios[i].name.as_str();
            let linked = self.linked_story(name);
            let ghost prev = result@;
            proof {
                assert(a.scenarios.take(i + 1).drop_last() =~= a.scenarios.take(i as int));
                assert(a.scenarios[i as int] == self.scenarios@[i as int]@);
            }
            match linked {
                Some(sid) => {
                    if str_eq(sid, story_id) {
                        let c = copy_ralph_scenario(&self.scenarios[i]);
                        result.push(c);
                        assert(ralph_scenarios_view(result@) =~= ralph_scenarios_view(prev).push(c@));
                    }
                },
                None => {},
            }
            i += 1;
        }
        assert(a.scenarios.take(a.scenarios.len() as int) == a.scenarios);
        Ok(result)
    }

    fn list_scenarios(&self) -> (r: Result<Vec<Scenario>, Error>)
        ensures
            r matches Ok(v) && ralph_scenarios_view(v@) == self@.scenarios,
    {
        let mut result: Vec<Scenario> = Vec::new();
        let mut i: usize = 0;
        while i < self.scenarios.len()
            invariant
                i <= self.scenarios@.len(),
                ralph_scenarios_view(result@) == ralph_scenarios_view(self.scenarios@).take(i as int),
            decreases self.scenarios@.len() - i,
        {
            let c = copy_ralph_scenario(&self.scenarios[i]);
            let ghost prev = result@;
            result.push(c);
            assert(ralph_scenarios_view(result@) =~= ralph_scenarios_view(prev).push(c@));
            assert(ralph_scenarios_view(self.scenarios@).take(i + 1) =~= ralph_scenarios_view(
                self.scenarios@,
            ).take(i as int).push(self.scenarios@[i as int]@));
            i += 1;
        }
        assert(ralph_scenarios_view(self.scenarios@).take(self.scenarios@.len() as int)
            == ralph_scenarios_view(self.scenarios@));
        Ok(result)
    }
}

impl OpenSpecAdapter {
    /// The story a scenario belongs to, by the last link made for its name.
    fn linked_story(&self, name: &str) -> (r: Option<&str>)
        ensures
            match r {
                Some(s) => link_of(self@.links, name@) == Some(s@),
                None => link_of(self@.links, name@) is None,
            },
    {
        let ghost l = self@.links;
        let mut k: usize = self.scenario_to_story.len();
        assert(l.take(k as int) == l);
        while k > 0
            invariant
                k <= self.scenario_to_story@.len(),
                l == self@.links,
                l == pairs_view(self.scenario_to_story@),
                link_of(l, name@) == link_of(l.take(k as int), name@),
            decreases k,
        {
            let (n, s) = &self.scenario_to_story[k - 1];
            assert(l.take(k as int).last() == l[k - 1]);
            assert(l.take(k as int).drop_last() == l.take(k - 1));
            if str_eq(n.as_str(), name) {
                return Some(s.as_str());
            }
            k -= 1;
        }
        None
    }
}

impl ProgressTracker for OpenSpecAdapter {
    type Error = Error;

    /// Recording is not supported for OpenSpec changes: nothing is kept.
    fn record_learning(&mut self, learning: Learning) -> (r: Result<(), Error>)
        ensures
            r is Ok,
            final(self)@ == old(self)@,
    {
        Ok(())
    }

    /// Recording is not supported for OpenSpec changes: nothing is kept.
    fn record_pattern(&mut self, pattern: Pattern) -> (r: Result<(), Error>)
        ensures
            r is Ok,
            final(self)@ == old(self)@,
    {
        Ok(())
    }

    /// No patterns are recorded for OpenSpec changes.
    fn list_patterns(&self) -> (r: Result<Vec<Pattern>, Error>)
        ensures
            r matches Ok(v) && v@.len() == 0,
    {
        Ok(Vec::new())
    }
}

// ============================================================================
// Laws
// ============================================================================

/// A task that was just marked complete is not the next task: after
/// `mark_complete` succeeds for an id, the next incomplete task, if any,
/// sits at another position than the task that was marked.
pub proof fn law_marked_task_is_not_next(s: Seq<StoryView>, id: Seq<char>, i: int, j: int, a: int, b: int)
    requires
        first_task_pos(s, has_id(id), i, j),
        first_task_pos(set_done(s, i, j), incomplete(), a, b),
    ensures
        !(a == i && b == j),
{
    if a == i && b == j {
        assert(set_done(s, i, j)[i].tasks[j].done);
        assert(incomplete()(set_done(s, i, j)[a].tasks[b]));
    }
}

/// Marking a task complete twice is the same as marking it once: the first
/// task with the id is found again at the same position, and it stays done.
pub proof fn law_mark_complete_idempotent(s: Seq<StoryView>, id: Seq<char>, i: int, j: int)
    requires
        first_task_pos(s, has_id(id), i, j),
    ensures
        first_task_pos(set_done(s, i, j), has_id(id), i, j),
        set_done(set_done(s, i, j), i, j) == set_done(s, i, j),
{
    let t = set_done(s, i, j);
    assert forall|a: int, b: int|
        #![trigger t[a].tasks[b]]
        valid_pos(t, a, b) && pos_before(a, b, i, j) implies !has_id(id)(t[a].tasks[b]) by {
        assert(valid_pos(s, a, b));
        assert(!has_id(id)(s[a].tasks[b]));
        if a == i {
            assert(t[a].tasks[b] == s[a].tasks[b]);
        } else {
            assert(t[a] == s[a]);
        }
    }
    assert(set_done(t, i, j) =~= t) by {
        assert(t[i].tasks.update(j, TaskView { done: true, ..t[i].tasks[j] }) =~= t[i].tasks);
    }
}

/// Marking never reopens work: every task that was complete before
/// `mark_complete` is complete after it, and the marked one as well.
pub proof fn law_mark_complete_monotone(s: Seq<StoryView>, i: int, j: int, a: int, b: int)
    requires
        valid_pos(s, i, j),
        valid_pos(s, a, b),
        s[a].tasks[b].done || (a == i && b == j),
    ensures
        set_done(s, i, j)[a].tasks[b].done,
{
}

} // verus!
