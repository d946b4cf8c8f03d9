use ralphtool::spec::create_adapter;
use ralphtool::spec::openspec::{
    extract_step, parse_spec_md, parse_story_header, parse_task_line,
    parse_tasks_md, ChangeFiles, OpenSpecAdapter, ProjectMarkers, StatusResponse,
};
use ralphtool::spec::SpecAdapter;

#[test]
fn openspec_parse_story_header_valid() {
    let result = parse_story_header("1. Project Setup");
    assert_eq!(result, Some(("1".to_string(), "Project Setup".to_string())));
}

#[test]
fn openspec_parse_story_header_two_digit() {
    let result = parse_story_header("12. Large Story");
    assert_eq!(result, Some(("12".to_string(), "Large Story".to_string())));
}

#[test]
fn openspec_parse_story_header_invalid() {
    assert_eq!(parse_story_header("Not a story"), None);
    assert_eq!(parse_story_header("A. Invalid"), None);
}

#[test]
fn openspec_parse_task_incomplete() {
    let task = parse_task_line("- [ ] 1.1 Add serde dependency").unwrap();
    assert_eq!(task.id, "1.1");
    assert_eq!(task.description, "Add serde dependency");
    assert!(!task.done);
}

#[test]
fn openspec_parse_task_complete() {
    let task = parse_task_line("- [x] 2.3 Implement feature").unwrap();
    assert_eq!(task.id, "2.3");
    assert_eq!(task.description, "Implement feature");
    assert!(task.done);
}

#[test]
fn openspec_parse_task_invalid() {
    assert!(parse_task_line("Not a task").is_none());
    assert!(parse_task_line("- Regular list item").is_none());
}

#[test]
fn openspec_parse_tasks_md_basic() {
    let content = r#"
## 1. Setup

- [ ] 1.1 First task
- [x] 1.2 Second task

## 2. Implementation

- [ ] 2.1 Another task
"#;
    let stories = parse_tasks_md(content).unwrap();
    assert_eq!(stories.len(), 2);

    assert_eq!(stories[0].id, "1");
    assert_eq!(stories[0].title, "Setup");
    assert_eq!(stories[0].tasks.len(), 2);
    assert!(!stories[0].tasks[0].done);
    assert!(stories[0].tasks[1].done);

    assert_eq!(stories[1].id, "2");
    assert_eq!(stories[1].title, "Implementation");
    assert_eq!(stories[1].tasks.len(), 1);
}

#[test]
fn openspec_extract_step_given() {
    assert_eq!(extract_step("- **GIVEN** the user exists"), "the user exists");
    assert_eq!(extract_step("- GIVEN the user exists"), "the user exists");
}

#[test]
fn openspec_extract_step_when() {
    assert_eq!(extract_step("- **WHEN** user clicks button"), "user clicks button");
}

#[test]
fn openspec_extract_step_then() {
    assert_eq!(extract_step("- **THEN** result is shown"), "result is shown");
}

fn adapter_with(spec: &str, tasks: &str, markers: ProjectMarkers) -> OpenSpecAdapter {
    let files = ChangeFiles {
        change_dir: "/test/openspec/changes/test-change".to_string(),
        tasks_md: Some(tasks.to_string()),
        spec_files: vec![("auth".to_string(), spec.to_string())],
        proposal: "Why".to_string(),
        design: "How".to_string(),
    };
    create_adapter("test-change", files, markers).unwrap()
}

const SPEC: &str = "# Auth\n\n### Requirement: User Login\nThe system lets users log in.\n\n#### Scenario: Valid credentials\n- **GIVEN** a registered user\n- **WHEN** they log in\n- **THEN** they see the dashboard\n- **AND** a session exists\n\n#### Scenario: Wrong password\n- GIVEN a registered user\n- WHEN the password is wrong\n- THEN an error is shown\n";

#[test]
fn parse_spec_md_reads_scenarios_with_requirement() {
    let scenarios = parse_spec_md(SPEC, "auth").unwrap();
    assert_eq!(scenarios.len(), 2);
    assert_eq!(scenarios[0].name, "Valid credentials");
    assert_eq!(scenarios[0].capability, "auth");
    assert_eq!(scenarios[0].requirement_id, "user-login");
    assert_eq!(scenarios[0].given, vec!["a registered user".to_string()]);
    assert_eq!(scenarios[0].when, "they log in");
    assert_eq!(
        scenarios[0].then_steps,
        vec!["they see the dashboard".to_string(), "a session exists".to_string()]
    );
    assert_eq!(scenarios[1].when, "the password is wrong");
}

#[test]
fn tool_prompt_contains_file_locations() {
    let adapter = adapter_with("", "", ProjectMarkers::default());
    let prompt = adapter.tool_prompt();
    assert!(prompt.contains("proposal.md"));
    assert!(prompt.contains("design.md"));
    assert!(prompt.contains("tasks.md"));
    assert!(prompt.contains("specs/"));
    assert!(prompt.contains("- [ ]"));
    assert!(prompt.contains("- [x]"));
    assert!(prompt.contains("Marking Tasks Complete"));
    assert!(prompt.contains("Given/When/Then"));
}

#[test]
fn adapter_serves_stories_context_and_commands() {
    let markers = ProjectMarkers { cargo_toml: true, ..ProjectMarkers::default() };
    let adapter = adapter_with(SPEC, "## 1. Setup\n- [x] 1.1 A\n## 2. Next\n- [ ] 2.1 B\n", markers);
    let stories = adapter.stories().unwrap();
    assert_eq!(stories.len(), 2);
    assert_eq!(adapter.scenarios().unwrap().len(), 2);
    let ctx = adapter.context("2").unwrap();
    assert_eq!(ctx.story.title, "Next");
    assert_eq!(ctx.proposal, "Why");
    assert_eq!(ctx.design, "How");
    assert_eq!(
        ctx.verify.checks,
        vec!["cargo check".to_string(), "cargo clippy -- -D warnings".to_string()]
    );
    assert_eq!(ctx.verify.tests, "cargo test");
    match adapter.context("9") {
        Err(e) => assert_eq!(e.to_string(), "Story not found: 9"),
        Ok(_) => panic!("story 9 does not exist"),
    }
    assert!(adapter.tool_prompt().contains("```bash\ncargo check\n```"));
    assert_eq!(adapter.change_dir(), "/test/openspec/changes/test-change");
}

#[test]
fn is_complete_reads_status() {
    let status = StatusResponse { change_name: "x".to_string(), is_complete: true };
    assert!(OpenSpecAdapter::is_complete(&status));
}

#[test]
fn tool_prompt_contains_task_marking_instructions() {
    let adapter = adapter_with("", "", ProjectMarkers::default());
    let prompt = adapter.tool_prompt();
    assert!(prompt.contains("- [ ]"));
    assert!(prompt.contains("- [x]"));
    assert!(prompt.contains("Marking Tasks Complete"));
}

#[test]
fn tool_prompt_contains_scenario_format() {
    let adapter = adapter_with("", "", ProjectMarkers::default());
    let prompt = adapter.tool_prompt();
    assert!(prompt.contains("Given/When/Then"));
    assert!(prompt.contains("GIVEN"));
    assert!(prompt.contains("WHEN"));
    assert!(prompt.contains("THEN"));
}

#[test]
fn one_story_per_numbered_header_in_order() {
    let content = "# Tasks\n\n## 2. Second\n- [ ] 2.1 A\n## Notes\n- [x] 9.9 Stray\n## 1. First\n";
    let stories = parse_tasks_md(content).unwrap();
    assert_eq!(stories.len(), 2);
    assert_eq!(stories[0].id, "2");
    assert_eq!(stories[0].title, "Second");
    assert_eq!(stories[0].tasks.len(), 1);
    assert_eq!(stories[1].id, "1");
    assert_eq!(stories[1].title, "First");
}

#[test]
fn one_scenario_per_header_under_the_requirement_in_force() {
    let content = "#### Scenario: Early\n### Requirement: Log In\n#### Scenario: A\n- **WHEN** x\n#### Scenario: B\n### Requirement: Out\n#### Scenario: C\n";
    let sc = parse_spec_md(content, "auth").unwrap();
    let got: Vec<(String, String, String)> = sc
        .iter()
        .map(|s| (s.name.clone(), s.requirement_id.clone(), s.capability.clone()))
        .collect();
    assert_eq!(
        got,
        vec![
            ("Early".to_string(), "".to_string(), "auth".to_string()),
            ("A".to_string(), "log-in".to_string(), "auth".to_string()),
            ("B".to_string(), "log-in".to_string(), "auth".to_string()),
            ("C".to_string(), "out".to_string(), "auth".to_string()),
        ]
    );
}
