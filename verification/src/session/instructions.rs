//! Instruction generation for coding agents: markdown built from the spec
//! layer's context of a story.

use vstd::prelude::*;

use crate::agent::prompt::task_line_text;
use crate::error::Error;
use crate::spec::openspec::{add_bash_blocks, bash_blocks};
use crate::spec::types::{Context, ContextView, Scenario, ScenarioView, TaskView, scenarios_view};
use crate::spec::SpecAdapter;
use crate::text::{
    add_line, add_section, concat2, concat3, concat5, join, join_strings, prefixed, push_prefixed,
    strs,
};

verus! {

/// The lines of one scenario in the instructions.
pub open spec fn instruction_scenario_lines(s: ScenarioView) -> Seq<Seq<char>> {
    seq!["### "@ + s.name + "\n"@] + (if s.given.len() > 0 {
        seq!["**Given:**"@] + prefixed("- "@, s.given)
    } else {
        Seq::empty()
    }) + seq!["**When:** "@ + s.when, "**Then:**"@] + prefixed("- "@, s.then_steps) + seq![
        Seq::empty(),
    ]
}

/// The lines of all scenarios of the instructions, in order.
pub open spec fn instruction_scenarios(ss: Seq<ScenarioView>) -> Seq<Seq<char>>
    decreases ss.len(),
{
    if ss.len() == 0 {
        Seq::empty()
    } else {
        instruction_scenarios(ss.drop_last()) + instruction_scenario_lines(ss.last())
    }
}

/// The sections of the instructions for a story's context: header,
/// proposal, design, tasks, scenarios (if any), verification, the
/// available commands, and what to do.
pub open spec fn instruction_sections(c: ContextView) -> Seq<Seq<char>> {
    let story = c.story;
    let sv = c.scenarios;
    let checks = c.checks;
    let tests = c.tests;
    seq![
        "# Story "@ + story.id + ": "@ + story.title + "\n"@,
        "## Proposal\n"@,
        c.proposal,
        Seq::empty(),
        "## Design\n"@,
        c.design,
        Seq::empty(),
        "## Tasks\n"@,
    ] + story.tasks.map_values(|t: TaskView| task_line_text(t)) + seq![Seq::empty()] + (if sv.len()
        > 0 {
        seq!["## Scenarios\n"@] + instruction_scenarios(sv)
    } else {
        Seq::empty()
    }) + seq!["## Verification\n"@] + (if checks.len() > 0 {
        seq!["**Checks:**"@] + bash_blocks(checks)
    } else {
        Seq::empty()
    }) + (if tests.len() > 0 {
        seq!["**Tests:**\n```bash\n"@ + tests + "\n```"@]
    } else {
        Seq::empty()
    }) + seq![Seq::empty()] + command_sections()
}

/// The available commands and the instructions.
pub open spec fn command_sections() -> Seq<Seq<char>> {
    seq![
        "## Available Commands\n"@,
        "Use these ralphtool commands to manage your progress:\n"@,
        "- `ralphtool agent context` - Get context for current story"@,
        "- `ralphtool agent task done <task_id>` - Mark a task as complete"@,
        "- `ralphtool agent status` - Check current progress"@,
        "- `ralphtool agent learn \"<description>\"` - Record a learning"@,
        Seq::empty(),
        "## Instructions\n"@,
        "Complete all tasks in this story. For each task:"@,
        "1. Implement the required changes"@,
        "2. Run verification checks"@,
        "3. Mark the task complete with `ralphtool agent task done <task_id>`"@,
        Seq::empty(),
    ]
}

/// The instructions for the view of a story's context, sections one per
/// line.
pub open spec fn instructions_for(c: ContextView) -> Seq<char> {
    join(instruction_sections(c), "\n"@)
}

/// The instructions for a story's context, sections one per line.
pub open spec fn instructions_text(c: Context) -> Seq<char> {
    instructions_for(c@)
}

fn add_instruction_scenario(lines: &mut Vec<String>, s: &Scenario)
    ensures
        strs(final(lines)@) == strs(old(lines)@) + instruction_scenario_lines(s@),
{
    let ghost start = strs(lines@);
    add_section(lines, concat3("### ", s.name.as_str(), "\n"));
    if s.given.len() > 0 {
        add_line(lines, "**Given:**");
        push_prefixed(lines, "- ", &s.given);
    }
    add_section(lines, concat2("**When:** ", s.when.as_str()));
    add_line(lines, "**Then:**");
    push_prefixed(lines, "- ", &s.then_steps);
    add_section(lines, String::new());
    assert(strs(lines@) =~= start + instruction_scenario_lines(s@));
}

fn add_instruction_scenarios(lines: &mut Vec<String>, scenarios: &Vec<Scenario>)
    ensures
        strs(final(lines)@) == strs(old(lines)@) + instruction_scenarios(scenarios_view(scenarios@)),
{
    let ghost start = strs(lines@);
    let mut i: usize = 0;
    while i < scenarios.len()
        invariant
            i <= scenarios@.len(),
            strs(lines@) == start + instruction_scenarios(scenarios_view(scenarios@.take(i as int))),
        decreases scenarios@.len() - i,
    {
        add_instruction_scenario(lines, &scenarios[i]);
        assert(scenarios_view(scenarios@.take(i + 1)).drop_last() =~= scenarios_view(
            scenarios@.take(i as int),
        ));
        i += 1;
    }
    assert(scenarios@.take(scenarios@.len() as int) == scenarios@);
}

fn add_task_lines(lines: &mut Vec<String>, c: &Context)
    ensures
        strs(final(lines)@) == strs(old(lines)@) + c.story@.tasks.map_values(
            |t: TaskView| task_line_text(t),
        ),
{
    let ghost start = strs(lines@);
    let tasks = &c.story.tasks;
    let mut i: usize = 0;
    while i < tasks.len()
        invariant
            i <= tasks@.len(),
            tasks == c.story.tasks,
            strs(lines@) == start + c.story@.tasks.take(i as int).map_values(
                |t: TaskView| task_line_text(t),
            ),
        decreases tasks@.len() - i,
    {
        let t = &tasks[i];
        let checkbox = if t.done {
            "[x]"
        } else {
            "[ ]"
        };
        let ghost before = strs(lines@);
        let mut line = concat5("- ", checkbox, " ", t.id.as_str(), " ");
        line.append(t.description.as_str());
        add_section(lines, line);
        assert(strs(lines@) == before.push(task_line_text(t@)));
        assert(c.story@.tasks[i as int] == t@);
        assert(c.story@.tasks.take(i + 1).map_values(|t: TaskView| task_line_text(t)) =~= c.story@.tasks.take(
            i as int,
        ).map_values(|t: TaskView| task_line_text(t)).push(task_line_text(t@)));
        assert(strs(lines@) =~= start + c.story@.tasks.take(i + 1).map_values(
            |t: TaskView| task_line_text(t),
        ));
        i += 1;
    }
    assert(c.story@.tasks.take(c.story@.tasks.len() as int) == c.story@.tasks);
}

fn add_command_sections(lines: &mut Vec<String>)
    ensures
        strs(final(lines)@) == strs(old(lines)@) + command_sections(),
{
    let ghost start = strs(lines@);
    add_line(lines, "## Available Commands\n");
    add_line(lines, "Use these ralphtool commands to manage your progress:\n");
    add_line(lines, "- `ralphtool agent context` - Get context for current story");
    add_line(lines, "- `ralphtool agent task done <task_id>` - Mark a task as complete");
    add_line(lines, "- `ralphtool agent status` - Check current progress");
    add_line(lines, "- `ralphtool agent learn \"<description>\"` - Record a learning");
    add_section(lines, String::new());
    add_line(lines, "## Instructions\n");
    add_line(lines, "Complete all tasks in this story. For each task:");
    add_line(lines, "1. Implement the required changes");
    add_line(lines, "2. Run verification checks");
    add_line(lines, "3. Mark the task complete with `ralphtool agent task done <task_id>`");
    add_section(lines, String::new());
    assert(strs(lines@) =~= start + command_sections());
}

/// Builds the markdown instructions for a story's context.
pub fn build_markdown(context: &Context) -> (s: String)
    ensures
        s@ == instructions_text(*context),
{
    let mut sections: Vec<String> = Vec::new();
    add_section(
        &mut sections,
        concat5("# Story ", context.story.id.as_str(), ": ", context.story.title.as_str(), "\n"),
    );
    add_line(&mut sections, "## Proposal\n");
    add_section(&mut sections, context.proposal.clone());
    add_section(&mut sections, String::new());
    add_line(&mut sections, "## Design\n");
    add_section(&mut sections, context.design.clone());
    add_section(&mut sections, String::new());
    add_line(&mut sections, "## Tasks\n");
    add_task_lines(&mut sections, context);
    add_section(&mut sections, String::new());
    let ghost after_tasks = strs(sections@);
    if context.scenarios.len() > 0 {
        add_line(&mut sections, "## Scenarios\n");
        add_instruction_scenarios(&mut sections, &context.scenarios);
    }
    add_line(&mut sections, "## Verification\n");
    let ghost before_checks = strs(sections@);
    if context.verify.checks.len() > 0 {
        add_line(&mut sections, "**Checks:**");
        add_bash_blocks(&mut sections, &context.verify.checks);
    }
    if !context.verify.tests.as_str().is_empty() {
        add_section(
            &mut sections,
            concat3("**Tests:**\n```bash\n", context.verify.tests.as_str(), "\n```"),
        );
    }
    add_section(&mut sections, String::new());
    add_command_sections(&mut sections);
    assert(strs(sections@) =~= instruction_sections(context@));
    join_strings(&sections, "\n")
}

/// Generates the instructions for a story from the adapter's context for
/// it. An error of the adapter is returned as it is.
pub fn generate_instructions<A: SpecAdapter>(adapter: &A, story_id: &str) -> (r: Result<
    String,
    Error,
>)
    ensures
        match adapter.context_spec(story_id@) {
            Ok(c) => r matches Ok(s) && s@ == instructions_for(c),
            Err(e) => r matches Err(x) && x@ == e,
        },
{
    let context = match adapter.context(story_id) {
        Ok(c) => c,
        Err(e) => return Err(e),
    };
    Ok(build_markdown(&context))
}

} // verus!
