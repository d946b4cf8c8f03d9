//! Prompt generation for coding agents.
//!
//! A story-specific prompt tells the agent how to work on a single story of
//! a change, with the relevant scenarios and the completion and failure
//! signal instructions.

use vstd::prelude::*;

use crate::agent::Prompt;
use crate::error::Error;
use crate::ralph_loop::learnings::{learnings_path, learnings_path_of};
use crate::spec::types::{scenarios_view, Scenario, ScenarioView, Story, StoryView, TaskView};
use crate::spec::SpecAdapter;
use crate::spec::openspec::{checkbox, task_line};
use crate::text::{
    add_line, add_section, concat2, concat3, concat4, concat5, find_from, is_ws, join, join_strings,
    prefixed, push_prefixed, strs, trim, trim_start,
};

verus! {

// ============================================================================
// The text of a story prompt
// ============================================================================

/// A task as a markdown checklist line.
pub open spec fn task_line_text(t: TaskView) -> Seq<char> {
    "- "@ + (if t.done {
        "[x]"@
    } else {
        "[ ]"@
    }) + " "@ + t.id + " "@ + t.description
}

/// The tasks of a story, one line each (or a placeholder when there are
/// none), followed by an empty line.
pub open spec fn tasks_text(tasks: Seq<TaskView>) -> Seq<char> {
    let lines = if tasks.len() == 0 {
        seq!["(No tasks defined)"@]
    } else {
        tasks.map_values(|t: TaskView| task_line_text(t))
    };
    join(lines.push(Seq::empty()), "\n"@)
}

/// The lines of one scenario: its heading, its steps, and an empty line.
pub open spec fn scenario_lines(s: ScenarioView) -> Seq<Seq<char>> {
    seq!["### "@ + s.name + " ("@ + s.capability + ")\n"@] + prefixed("- **GIVEN** "@, s.given) + (
    if s.when.len() > 0 {
        seq!["- **WHEN** "@ + s.when]
    } else {
        Seq::empty()
    }) + prefixed("- **THEN** "@, s.then_steps) + seq![Seq::empty()]
}

/// The lines of all scenarios, in order.
pub open spec fn all_scenario_lines(ss: Seq<ScenarioView>) -> Seq<Seq<char>>
    decreases ss.len(),
{
    if ss.len() == 0 {
        Seq::empty()
    } else {
        all_scenario_lines(ss.drop_last()) + scenario_lines(ss.last())
    }
}

/// The scenarios as markdown (or a placeholder when there are none).
pub open spec fn scenarios_text(ss: Seq<ScenarioView>) -> Seq<char> {
    if ss.len() == 0 {
        "(No scenarios defined)\n"@
    } else {
        join(all_scenario_lines(ss), "\n"@)
    }
}

/// The section that explains why the previous attempt failed.
pub open spec fn retry_sections(retry_reason: Option<Seq<char>>) -> Seq<Seq<char>> {
    match retry_reason {
        Some(reason) => seq![
            "## Previous Attempt Failed\n"@,
            "The previous attempt failed with the following reason:\n> "@ + reason + "\n"@,
            "Please address this issue in your current attempt. Review the failure reason and try a different approach if needed.\n"@,
        ],
        None => Seq::empty(),
    }
}

/// The section that shares the learnings of previous stories.
pub open spec fn learnings_sections(learnings: Option<Seq<char>>, change_name: Seq<char>) -> Seq<Seq<char>> {
    match learnings {
        Some(content) => seq![
            "## Shared Learnings\n"@,
            "Previous stories have recorded the following learnings. Use this information to avoid repeating work and maintain consistency.\n"@,
            "**What to record**: As you work, add discoveries, decisions, and gotchas to the learnings file at `"@
                + learnings_path_of(change_name) + "`.\n"@,
            "### Current Learnings\n"@,
            "```markdown\n"@ + content + "\n```\n"@,
        ],
        None => Seq::empty(),
    }
}

/// The instructions on the completion and failure signals.
pub open spec fn signal_sections() -> Seq<Seq<char>> {
    seq![
        "\n## Completion Signal\n"@,
        "After completing all tasks in this story:\n"@,
        "1. Run verification commands (cargo check, cargo clippy, cargo test)"@,
        "2. If all verification passes, output: `<promise>COMPLETE</promise>`"@,
        "3. If verification fails, fix issues and re-verify before signaling\n"@,
        "**Important**: Only output `<promise>COMPLETE</promise>` after ALL tasks in this story are done AND verification passes.\n"@,
        "## Failure Signal\n"@,
        "If you cannot complete the story after multiple attempts:\n"@,
        "- Output: `<promise>FAILED: {reason}</promise>` where `{reason}` explains why completion is not possible"@,
        "- The orchestrator will revert changes, include your reason in the next retry prompt, and try again"@,
        "- Use this for: unresolvable test failures, missing dependencies, unclear requirements, blocked tasks\n"@,
        "**Note**: Prefer fixing issues and completing. Only use FAILED when you truly cannot proceed."@,
    ]
}

/// The sections of the prompt for a story: header, failure of the previous
/// attempt (on a retry), scope, tasks, context files, shared learnings (when
/// there are any), scenarios, the spec tool's instructions, and the signals.
pub open spec fn story_prompt_sections(
    story: StoryView,
    retry_reason: Option<Seq<char>>,
    learnings: Option<Seq<char>>,
    change_name: Seq<char>,
    scenarios: Seq<ScenarioView>,
    tool_prompt: Seq<char>,
) -> Seq<Seq<char>> {
    seq!["# Working on Story "@ + story.id + ": "@ + story.title + "\n"@] + retry_sections(
        retry_reason,
    ) + seq![
        "## Your Task\n"@,
        "Complete all tasks in **Story "@ + story.id + " only**. Do not work on other stories."@,
        "The orchestrator will handle the next story after you complete this one.\n"@,
        "## Tasks to Complete\n"@,
        tasks_text(story.tasks),
        "## Context\n"@,
        "Read the proposal and design to understand the change:\n- Proposal: motivation and scope\n- Design: technical decisions\n"@,
    ] + learnings_sections(learnings, change_name) + seq![
        "## Verification Scenarios\n"@,
        "Focus on scenarios relevant to this story's tasks. You don't need to verify unrelated scenarios.\n"@,
        scenarios_text(scenarios),
        tool_prompt,
    ] + signal_sections()
}

/// The user prompt for a story: its sections, one per line.
pub open spec fn story_prompt_text(
    story: StoryView,
    retry_reason: Option<Seq<char>>,
    learnings: Option<Seq<char>>,
    change_name: Seq<char>,
    scenarios: Seq<ScenarioView>,
    tool_prompt: Seq<char>,
) -> Seq<char> {
    join(
        story_prompt_sections(story, retry_reason, learnings, change_name, scenarios, tool_prompt),
        "\n"@,
    )
}

/// The view of an optional string.
pub open spec fn opt_view(o: Option<String>) -> Option<Seq<char>> {
    match o {
        Some(s) => Some(s@),
        None => None,
    }
}

// ============================================================================
// Rendering
// ============================================================================

/// Format tasks for display in the prompt.
pub fn format_tasks(story: &Story) -> (s: String)
    ensures
        s@ == tasks_text(story@.tasks),
{
    let mut lines: Vec<String> = Vec::new();
    let mut i: usize = 0;
    while i < story.tasks.len()
        invariant
            i <= story.tasks@.len(),
            strs(lines@) == story@.tasks.take(i as int).map_values(|t: TaskView| task_line_text(t)),
        decreases story.tasks@.len() - i,
    {
        let t = &story.tasks[i];
        let checkbox = if t.done {
            "[x]"
        } else {
            "[ ]"
        };
        let mut line = concat4("- ", checkbox, " ", t.id.as_str());
        line.append(" ");
        line.append(t.description.as_str());
        add_section(&mut lines, line);
        assert(story@.tasks[i as int] == t@);
        assert(story@.tasks.take(i + 1).map_values(|t: TaskView| task_line_text(t)) =~= story@.tasks.take(
            i as int,
        ).map_values(|t: TaskView| task_line_text(t)).push(task_line_text(t@)));
        i += 1;
    }
    assert(story@.tasks.take(story@.tasks.len() as int) == story@.tasks);
    if lines.len() == 0 {
        add_line(&mut lines, "(No tasks defined)");
        assert(strs(lines@) =~= seq!["(No tasks defined)"@]);
    }
    add_section(&mut lines, String::new());
    join_strings(&lines, "\n")
}

/// Appends the lines of one scenario.
fn add_scenario_lines(lines: &mut Vec<String>, s: &Scenario)
    ensures
        strs(final(lines)@) == strs(old(lines)@) + scenario_lines(s@),
{
    let ghost start = strs(lines@);
    add_section(lines, concat5("### ", s.name.as_str(), " (", s.capability.as_str(), ")\n"));
    push_prefixed(lines, "- **GIVEN** ", &s.given);
    if !s.when.as_str().is_empty() {
        add_section(lines, concat2("- **WHEN** ", s.when.as_str()));
    }
    push_prefixed(lines, "- **THEN** ", &s.then_steps);
    add_section(lines, String::new());
    assert(strs(lines@) =~= start + scenario_lines(s@));
}

/// Format scenarios for display in the prompt.
pub fn format_scenarios(scenarios: &[Scenario]) -> (s: String)
    ensures
        s@ == scenarios_text(scenarios_view(scenarios@)),
{
    if scenarios.len() == 0 {
        return "(No scenarios defined)\n".to_owned();
    }
    let mut lines: Vec<String> = Vec::new();
    let mut i: usize = 0;
    while i < scenarios.len()
        invariant
            i <= scenarios@.len(),
            strs(lines@) == all_scenario_lines(scenarios_view(scenarios@.take(i as int))),
        decreases scenarios@.len() - i,
    {
        add_scenario_lines(&mut lines, &scenarios[i]);
        assert(scenarios_view(scenarios@.take(i + 1)).drop_last() =~= scenarios_view(
            scenarios@.take(i as int),
        ));
        i += 1;
    }
    assert(scenarios@.take(scenarios@.len() as int) == scenarios@);
    join_strings(&lines, "\n")
}

/// The story's header, followed by the failure of the previous attempt.
fn add_header_sections(sections: &mut Vec<String>, story: &Story, retry_reason: Option<String>)
    ensures
        strs(final(sections)@) == strs(old(sections)@) + seq![
            "# Working on Story "@ + story@.id + ": "@ + story@.title + "\n"@,
        ] + retry_sections(opt_view(retry_reason)),
{
    let ghost start = strs(sections@);
    add_section(
        sections,
        concat5("# Working on Story ", story.id.as_str(), ": ", story.title.as_str(), "\n"),
    );
    if let Some(reason) = retry_reason {
        add_line(sections, "## Previous Attempt Failed\n");
        add_section(
            sections,
            concat3(
                "The previous attempt failed with the following reason:\n> ",
                reason.as_str(),
                "\n",
            ),
        );
        add_line(
            sections,
            "Please address this issue in your current attempt. Review the failure reason and try a different approach if needed.\n",
        );
    }
    assert(strs(sections@) =~= start + seq![
        "# Working on Story "@ + story@.id + ": "@ + story@.title + "\n"@,
    ] + retry_sections(opt_view(retry_reason)));
}

/// The story's scope, its tasks and the context files.
fn add_task_sections(sections: &mut Vec<String>, story: &Story)
    ensures
        strs(final(sections)@) == strs(old(sections)@) + seq![
            "## Your Task\n"@,
            "Complete all tasks in **Story "@ + story@.id + " only**. Do not work on other stories."@,
            "The orchestrator will handle the next story after you complete this one.\n"@,
            "## Tasks to Complete\n"@,
            tasks_text(story@.tasks),
            "## Context\n"@,
            "Read the proposal and design to understand the change:\n- Proposal: motivation and scope\n- Design: technical decisions\n"@,
        ],
{
    let ghost start = strs(sections@);
    add_line(sections, "## Your Task\n");
    add_section(
        sections,
        concat3(
            "Complete all tasks in **Story ",
            story.id.as_str(),
            " only**. Do not work on other stories.",
        ),
    );
    add_line(sections, "The orchestrator will handle the next story after you complete this one.\n");
    add_line(sections, "## Tasks to Complete\n");
    add_section(sections, format_tasks(story));
    add_line(sections, "## Context\n");
    add_line(
        sections,
        "Read the proposal and design to understand the change:\n- Proposal: motivation and scope\n- Design: technical decisions\n",
    );
    assert(strs(sections@) =~= start + seq![
        "## Your Task\n"@,
        "Complete all tasks in **Story "@ + story@.id + " only**. Do not work on other stories."@,
        "The orchestrator will handle the next story after you complete this one.\n"@,
        "## Tasks to Complete\n"@,
        tasks_text(story@.tasks),
        "## Context\n"@,
        "Read the proposal and design to understand the change:\n- Proposal: motivation and scope\n- Design: technical decisions\n"@,
    ]);
}

/// The shared learnings, when there are any.
fn add_learnings_sections(sections: &mut Vec<String>, learnings: &Option<String>, change_name: &str)
    ensures
        strs(final(sections)@) == strs(old(sections)@) + learnings_sections(
            opt_view(*learnings),
            change_name@,
        ),
{
    let ghost start = strs(sections@);
    if let Some(content) = learnings {
        add_line(sections, "## Shared Learnings\n");
        add_line(
            sections,
            "Previous stories have recorded the following learnings. Use this information to avoid repeating work and maintain consistency.\n",
        );
        let path = learnings_path(change_name);
        add_section(
            sections,
            concat3(
                "**What to record**: As you work, add discoveries, decisions, and gotchas to the learnings file at `",
                path.as_str(),
                "`.\n",
            ),
        );
        add_line(sections, "### Current Learnings\n");
        add_section(sections, concat3("```markdown\n", content.as_str(), "\n```\n"));
    }
    assert(strs(sections@) =~= start + learnings_sections(opt_view(*learnings), change_name@));
}

/// The scenarios and the spec tool's instructions.
fn add_scenario_sections(sections: &mut Vec<String>, scenarios: &[Scenario], tool_prompt: String)
    ensures
        strs(final(sections)@) == strs(old(sections)@) + seq![
            "## Verification Scenarios\n"@,
            "Focus on scenarios relevant to this story's tasks. You don't need to verify unrelated scenarios.\n"@,
            scenarios_text(scenarios_view(scenarios@)),
            tool_prompt@,
        ],
{
    let ghost start = strs(sections@);
    add_line(sections, "## Verification Scenarios\n");
    add_line(
        sections,
        "Focus on scenarios relevant to this story's tasks. You don't need to verify unrelated scenarios.\n",
    );
    add_section(sections, format_scenarios(scenarios));
    add_section(sections, tool_prompt);
    assert(strs(sections@) =~= start + seq![
        "## Verification Scenarios\n"@,
        "Focus on scenarios relevant to this story's tasks. You don't need to verify unrelated scenarios.\n"@,
        scenarios_text(scenarios_view(scenarios@)),
        tool_prompt@,
    ]);
}

/// The completion and failure signal instructions.
fn add_signal_sections(sections: &mut Vec<String>)
    ensures
        strs(final(sections)@) == strs(old(sections)@) + signal_sections(),
{
    let ghost start = strs(sections@);
    add_line(sections, "\n## Completion Signal\n");
    add_line(sections, "After completing all tasks in this story:\n");
    add_line(sections, "1. Run verification commands (cargo check, cargo clippy, cargo test)");
    add_line(sections, "2. If all verification passes, output: `<promise>COMPLETE</promise>`");
    add_line(sections, "3. If verification fails, fix issues and re-verify before signaling\n");
    add_line(
        sections,
        "**Important**: Only output `<promise>COMPLETE</promise>` after ALL tasks in this story are done AND verification passes.\n",
    );
    add_line(sections, "## Failure Signal\n");
    add_line(sections, "If you cannot complete the story after multiple attempts:\n");
    add_line(
        sections,
        "- Output: `<promise>FAILED: {reason}</promise>` where `{reason}` explains why completion is not possible",
    );
    add_line(
        sections,
        "- The orchestrator will revert changes, include your reason in the next retry prompt, and try again",
    );
    add_line(
        sections,
        "- Use this for: unresolvable test failures, missing dependencies, unclear requirements, blocked tasks\n",
    );
    add_line(
        sections,
        "**Note**: Prefer fixing issues and completing. Only use FAILED when you truly cannot proceed.",
    );
    assert(strs(sections@) =~= start + signal_sections());
}

/// Renders the prompt for a story from the story, the change's scenarios and
/// the spec tool's instructions; the system prompt stays empty.
pub fn render_story_prompt(
    story: &Story,
    retry_reason: Option<String>,
    learnings: &Option<String>,
    change_name: &str,
    scenarios: &[Scenario],
    tool_prompt: String,
) -> (p: Prompt)
    ensures
        p.system@ == Seq::<char>::empty(),
        p.user@ == story_prompt_text(
            story@,
            opt_view(retry_reason),
            opt_view(*learnings),
            change_name@,
            scenarios_view(scenarios@),
            tool_prompt@,
        ),
{
    let ghost reason_v = opt_view(retry_reason);
    let ghost tool_v = tool_prompt@;
    let mut sections: Vec<String> = Vec::new();
    add_header_sections(&mut sections, story, retry_reason);
    add_task_sections(&mut sections, story);
    add_learnings_sections(&mut sections, learnings, change_name);
    add_scenario_sections(&mut sections, scenarios, tool_prompt);
    add_signal_sections(&mut sections);
    assert(strs(sections@) =~= story_prompt_sections(
        story@,
        reason_v,
        opt_view(*learnings),
        change_name@,
        scenarios_view(scenarios@),
        tool_v,
    ));
    Prompt { system: String::new(), user: join_strings(&sections, "\n") }
}

// ============================================================================
// Prompt builder
// ============================================================================

/// Builder for generating story-specific agent prompts.
pub struct PromptBuilder<'a, A: SpecAdapter> {
    /// Adapter from which stories, scenarios and tool instructions are read.
    pub adapter: &'a A,
    /// Name of the change.
    pub change_name: String,
    /// Optional learnings content to include in the prompt.
    pub learnings_content: Option<String>,
}

impl<'a, A: SpecAdapter> PromptBuilder<'a, A> {
    /// Create a new PromptBuilder for a change, without learnings.
    pub fn new(adapter: &'a A, change_name: &str) -> (b: Self)
        ensures
            b.adapter == adapter,
            b.change_name@ == change_name@,
            b.learnings_content is None,
    {
        PromptBuilder { adapter, change_name: change_name.to_owned(), learnings_content: None }
    }

    /// Set optional learnings content to include in prompts: when set,
    /// prompts include a "Shared Learnings" section with what to record,
    /// the path of the learnings file and the existing learnings.
    pub fn with_learnings(self, learnings_content: Option<String>) -> (b: Self)
        ensures
            b.adapter == self.adapter,
            b.change_name == self.change_name,
            b.learnings_content == learnings_content,
    {
        PromptBuilder { adapter: self.adapter, change_name: self.change_name, learnings_content }
    }

    /// Generate a prompt for working on a specific story, without retry
    /// context.
    pub fn for_story(&self, story_id: &str) -> (r: Result<Prompt, Error>)
        ensures
            match self.adapter.context_spec(story_id@) {
                Err(e) => r matches Err(x) && x@ == e,
                Ok(c) => match self.adapter.scenarios_spec() {
                    Err(e) => r matches Err(x) && x@ == e,
                    Ok(sc) => r matches Ok(p) && p.system@ == Seq::<char>::empty() && p.user@
                        == story_prompt_text(
                        c.story,
                        None,
                        opt_view(self.learnings_content),
                        self.change_name@,
                        sc,
                        self.adapter.tool_spec(),
                    ),
                },
            },
    {
        self.for_story_with_retry_context(story_id, None)
    }

    /// Generate a prompt for working on a specific story with optional retry
    /// context: the story comes from the adapter's context for `story_id`,
    /// the scenarios are all the adapter's scenarios, and the tool
    /// instructions are the adapter's. An error of the adapter is returned
    /// as it is.
    pub fn for_story_with_retry_context(&self, story_id: &str, retry_reason: Option<String>) -> (r:
        Result<Prompt, Error>)
        ensures
            match self.adapter.context_spec(story_id@) {
                Err(e) => r matches Err(x) && x@ == e,
                Ok(c) => match self.adapter.scenarios_spec() {
                    Err(e) => r matches Err(x) && x@ == e,
                    Ok(sc) => r matches Ok(p) && p.system@ == Seq::<char>::empty() && p.user@
                        == story_prompt_text(
                        c.story,
                        opt_view(retry_reason),
                        opt_view(self.learnings_content),
                        self.change_name@,
                        sc,
                        self.adapter.tool_spec(),
                    ),
                },
            },
    {
        let context = match self.adapter.context(story_id) {
            Ok(c) => c,
            Err(e) => return Err(e),
        };
        let all_scenarios = match self.adapter.scenarios() {
            Ok(s) => s,
            Err(e) => return Err(e),
        };
        let tool = self.adapter.tool_prompt();
        let p = render_story_prompt(
            &context.story,
            retry_reason,
            &self.learnings_content,
            self.change_name.as_str(),
            &all_scenarios,
            tool,
        );
        Ok(p)
    }
}

/// `find_from` of a space in `a + " " + b` from a position within `a`,
/// when `a` holds no space, is the position right after `a`.
proof fn lemma_find_space(a: Seq<char>, b: Seq<char>, i: int)
    requires
        0 <= i <= a.len(),
        forall|k: int| 0 <= k < a.len() ==> a[k] != ' ',
    ensures
        find_from(a + " "@ + b, " "@, i) == Some(a.len() as int),
    decreases a.len() - i,
{
    reveal_strlit(" ");
    let s = a + " "@ + b;
    if i < a.len() {
        assert(s.subrange(i, i + 1)[0] == a[i]);
        assert(s.subrange(i, i + 1) != " "@);
        lemma_find_space(a, b, i + 1);
    } else {
        assert(s.subrange(i, i + 1) =~= " "@);
    }
}

/// A task line as the prompt writes it reads back as the same task in
/// `tasks.md`: the check box gives its state, the first word its id and
/// the rest its description, when the id holds no whitespace and the
/// description has none around it.
pub proof fn law_task_line_round_trip(t: TaskView)
    requires
        forall|k: int| 0 <= k < t.id.len() ==> !is_ws(#[trigger] t.id[k]),
        trim(t.description) == t.description,
    ensures
        task_line(task_line_text(t)) == Some(t),
{
    reveal_strlit("- ");
    reveal_strlit("[x]");
    reveal_strlit("[ ]");
    reveal_strlit(" ");
    reveal_strlit("- [x] ");
    reveal_strlit("- [X] ");
    reveal_strlit("- [ ] ");
    let line = task_line_text(t);
    let rest = t.id + " "@ + t.description;
    if t.done {
        assert(line =~= "- [x] "@ + rest);
        assert(line.take(6) =~= "- [x] "@);
        assert(line.skip(6) =~= rest);
        assert(checkbox(line) == Some((true, rest)));
    } else {
        assert(line =~= "- [ ] "@ + rest);
        assert(line.take(6)[3] == ' ');
        assert(line.take(6) != "- [x] "@);
        assert(line.take(6) != "- [X] "@);
        assert(line.take(6) =~= "- [ ] "@);
        assert(line.skip(6) =~= rest);
        assert(checkbox(line) == Some((false, rest)));
    }
    assert forall|k: int| 0 <= k < t.id.len() implies t.id[k] != ' ' by {
        assert(!is_ws(t.id[k]));
    }
    lemma_find_space(t.id, t.description, 0);
    assert(rest.take(t.id.len() as int) =~= t.id);
    assert(rest.skip((t.id.len() + 1) as int) =~= t.description);
    if t.id.len() > 0 {
        assert(!is_ws(t.id[0]));
        assert(!is_ws(t.id.last()));
    }
    assert(trim_start(t.id) == t.id);
    assert(trim(t.id) == t.id);
}

} // verus!
