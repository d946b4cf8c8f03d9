//! Prompt for an agent that works through a whole change on its own,
//! reading the change's files and marking tasks complete in `tasks.md`.

use vstd::prelude::*;

use crate::error::Error;
use crate::spec::openspec::{add_bash_blocks, bash_blocks};
use crate::spec::types::VerifyCommands;
use crate::spec::SpecAdapter;
use crate::text::{add_line, add_section, concat3, join, join_path, join_strings, path_join, strs};

verus! {

/// The directory of a change below a working directory:
/// `{cwd}/openspec/changes/{change_name}`.
pub open spec fn change_directory(cwd: Seq<char>, change_name: Seq<char>) -> Seq<char> {
    join_path(join_path(join_path(cwd, "openspec"@), "changes"@), change_name)
}

/// Returns the path to a change directory below a working directory.
pub fn get_change_directory(cwd: &str, change_name: &str) -> (d: String)
    ensures
        d@ == change_directory(cwd@, change_name@),
{
    let a = path_join(cwd, "openspec");
    let b = path_join(a.as_str(), "changes");
    path_join(b.as_str(), change_name)
}

/// The header, the change's location and the files to read.
pub open spec fn location_sections(change_name: Seq<char>, dir: Seq<char>) -> Seq<Seq<char>> {
    seq![
        "# Working on Change: "@ + change_name + "\n"@,
        "## Change Location\n"@,
        "The change files are located at: `"@ + dir + "`\n"@,
        "## Files to Read\n"@,
        "Read these files to understand the change:\n"@,
        "- `"@ + dir + "/proposal.md` - Motivation and scope"@,
        "- `"@ + dir + "/design.md` - Technical decisions"@,
        "- `"@ + dir + "/tasks.md` - Stories and tasks to implement"@,
        "- `"@ + dir + "/specs/` - Detailed requirements\n"@,
    ]
}

/// The workflow and how to mark tasks complete.
pub open spec fn workflow_sections(dir: Seq<char>) -> Seq<Seq<char>> {
    seq![
        "## Workflow\n"@,
        "1. Read the proposal and design to understand the context"@,
        "2. Read tasks.md to see the stories and tasks"@,
        "3. Complete all tasks in Story 1 before moving to Story 2, etc."@,
        "4. For each task:"@,
        "   - Implement the required changes"@,
        "   - Run verification commands"@,
        "   - Mark the task complete in tasks.md\n"@,
        "## Marking Tasks Complete\n"@,
        "Edit `"@ + dir + "/tasks.md` directly to mark tasks complete:"@,
        "- Change `- [ ]` to `- [x]` for completed tasks"@,
        "- Example: `- [ ] 1.1 Task description` becomes `- [x] 1.1 Task description`\n"@,
    ]
}

/// The verification commands: checks (if any), then tests (if any).
pub open spec fn verification_sections(checks: Seq<Seq<char>>, tests: Seq<char>) -> Seq<Seq<char>> {
    let with_checks = if checks.len() > 0 {
        seq!["## Verification\n"@, "Run these checks after implementing:"@] + bash_blocks(checks)
    } else {
        seq!["## Verification\n"@]
    };
    if tests.len() > 0 {
        with_checks.push("\nRun tests:\n```bash\n"@ + tests + "\n```\n"@)
    } else {
        with_checks
    }
}

/// The instructions on story progression.
pub open spec fn progression_sections() -> Seq<Seq<char>> {
    seq![
        "## Instructions\n"@,
        "Work through all stories in order. For each story:"@,
        "1. Complete all tasks in the story"@,
        "2. Verify with the commands above"@,
        "3. Mark tasks complete by editing tasks.md"@,
        "4. Move to the next story\n"@,
        "Stop when all tasks in all stories are marked complete."@,
    ]
}

/// The self-contained prompt for a change, its sections one per line.
pub open spec fn change_prompt_text(
    change_name: Seq<char>,
    dir: Seq<char>,
    checks: Seq<Seq<char>>,
    tests: Seq<char>,
) -> Seq<char> {
    join(
        location_sections(change_name, dir) + workflow_sections(dir) + verification_sections(
            checks,
            tests,
        ) + progression_sections(),
        "\n"@,
    )
}

fn add_location_sections(sections: &mut Vec<String>, change_name: &str, dir: &str)
    ensures
        strs(final(sections)@) == strs(old(sections)@) + location_sections(change_name@, dir@),
{
    let ghost start = strs(sections@);
    add_section(sections, concat3("# Working on Change: ", change_name, "\n"));
    add_line(sections, "## Change Location\n");
    add_section(sections, concat3("The change files are located at: `", dir, "`\n"));
    add_line(sections, "## Files to Read\n");
    add_line(sections, "Read these files to understand the change:\n");
    add_section(sections, concat3("- `", dir, "/proposal.md` - Motivation and scope"));
    add_section(sections, concat3("- `", dir, "/design.md` - Technical decisions"));
    add_section(sections, concat3("- `", dir, "/tasks.md` - Stories and tasks to implement"));
    add_section(sections, concat3("- `", dir, "/specs/` - Detailed requirements\n"));
    assert(strs(sections@) =~= start + location_sections(change_name@, dir@));
}

fn add_workflow_sections(sections: &mut Vec<String>, dir: &str)
    ensures
        strs(final(sections)@) == strs(old(sections)@) + workflow_sections(dir@),
{
    let ghost start = strs(sections@);
    add_line(sections, "## Workflow\n");
    add_line(sections, "1. Read the proposal and design to understand the context");
    add_line(sections, "2. Read tasks.md to see the stories and tasks");
    add_line(sections, "3. Complete all tasks in Story 1 before moving to Story 2, etc.");
    add_line(sections, "4. For each task:");
    add_line(sections, "   - Implement the required changes");
    add_line(sections, "   - Run verification commands");
    add_line(sections, "   - Mark the task complete in tasks.md\n");
    add_line(sections, "## Marking Tasks Complete\n");
    add_section(sections, concat3("Edit `", dir, "/tasks.md` directly to mark tasks complete:"));
    add_line(sections, "- Change `- [ ]` to `- [x]` for completed tasks");
    add_line(
        sections,
        "- Example: `- [ ] 1.1 Task description` becomes `- [x] 1.1 Task description`\n",
    );
    assert(strs(sections@) =~= start + workflow_sections(dir@));
}

fn add_verification_sections(sections: &mut Vec<String>, verify: &VerifyCommands)
    ensures
        strs(final(sections)@) == strs(old(sections)@) + verification_sections(
            strs(verify.checks@),
            verify.tests@,
        ),
{
    let ghost start = strs(sections@);
    add_line(sections, "## Verification\n");
    if verify.checks.len() > 0 {
        add_line(sections, "Run these checks after implementing:");
        add_bash_blocks(sections, &verify.checks);
    }
    if !verify.tests.as_str().is_empty() {
        add_section(sections, concat3("\nRun tests:\n```bash\n", verify.tests.as_str(), "\n```\n"));
    }
    assert(strs(sections@) =~= start + verification_sections(strs(verify.checks@), verify.tests@));
}

fn add_progression_sections(sections: &mut Vec<String>)
    ensures
        strs(final(sections)@) == strs(old(sections)@) + progression_sections(),
{
    let ghost start = strs(sections@);
    add_line(sections, "## Instructions\n");
    add_line(sections, "Work through all stories in order. For each story:");
    add_line(sections, "1. Complete all tasks in the story");
    add_line(sections, "2. Verify with the commands above");
    add_line(sections, "3. Mark tasks complete by editing tasks.md");
    add_line(sections, "4. Move to the next story\n");
    add_line(sections, "Stop when all tasks in all stories are marked complete.");
    assert(strs(sections@) =~= start + progression_sections());
}

/// Renders the prompt for a change from its directory and verification
/// commands.
pub fn render_change_prompt(change_name: &str, change_dir: &str, verify: &VerifyCommands) -> (p:
    String)
    ensures
        p@ == change_prompt_text(change_name@, change_dir@, strs(verify.checks@), verify.tests@),
{
    let mut sections: Vec<String> = Vec::new();
    add_location_sections(&mut sections, change_name, change_dir);
    add_workflow_sections(&mut sections, change_dir);
    add_verification_sections(&mut sections, verify);
    add_progression_sections(&mut sections);
    assert(strs(sections@) =~= location_sections(change_name@, change_dir@) + workflow_sections(
        change_dir@,
    ) + verification_sections(strs(verify.checks@), verify.tests@) + progression_sections());
    join_strings(&sections, "\n")
}

/// Generates a self-contained prompt for an agent to work on a change in
/// the working directory `cwd`: the change's location, the workflow, the
/// adapter's verification commands and the story progression. An error of
/// the adapter is returned as it is.
pub fn generate_prompt<A: SpecAdapter>(change_name: &str, cwd: &str, adapter: &A) -> (r: Result<
    String,
    Error,
>)
    ensures
        match adapter.verify_spec() {
            Ok((checks, tests)) => r matches Ok(p) && p@ == change_prompt_text(
                change_name@,
                change_directory(cwd@, change_name@),
                checks,
                tests,
            ),
            Err(e) => r matches Err(x) && x@ == e,
        },
{
    let change_dir = get_change_directory(cwd, change_name);
    let verify = match adapter.verify_commands() {
        Ok(v) => v,
        Err(e) => return Err(e),
    };
    Ok(render_change_prompt(change_name, change_dir.as_str(), &verify))
}

} // verus!
