use ralphtool::error::Error;
use ralphtool::session::instructions::{build_markdown, generate_instructions};
use ralphtool::spec::{Context, Scenario, SpecAdapter, Story, Task, VerifyCommands};

fn context() -> Context {
    Context {
        story: Story {
            id: "1".to_string(),
            title: "Implement feature".to_string(),
            tasks: vec![
                Task { id: "1.1".to_string(), description: "First task".to_string(), done: false },
                Task { id: "1.2".to_string(), description: "Second task".to_string(), done: true },
            ],
        },
        proposal: "This is the proposal.".to_string(),
        design: "This is the design.".to_string(),
        scenarios: vec![Scenario {
            name: "Test scenario".to_string(),
            capability: "cap".to_string(),
            requirement_id: "req".to_string(),
            given: vec!["Precondition".to_string()],
            when: "Action happens".to_string(),
            then_steps: vec!["Expected result".to_string()],
        }],
        verify: VerifyCommands {
            checks: vec!["cargo check".to_string()],
            tests: "cargo test".to_string(),
        },
    }
}

#[test]
fn generates_markdown_with_all_sections() {
    let context = context();

    let markdown = build_markdown(&context);

    assert!(markdown.contains("# Story 1: Implement feature"));
    assert!(markdown.contains("## Proposal"));
    assert!(markdown.contains("This is the proposal."));
    assert!(markdown.contains("## Design"));
    assert!(markdown.contains("This is the design."));
    assert!(markdown.contains("## Tasks"));
    assert!(markdown.contains("- [ ] 1.1 First task"));
    assert!(markdown.contains("- [x] 1.2 Second task"));
    assert!(markdown.contains("## Scenarios"));
    assert!(markdown.contains("### Test scenario"));
    assert!(markdown.contains("**Given:**"));
    assert!(markdown.contains("**When:** Action happens"));
    assert!(markdown.contains("**Then:**"));
    assert!(markdown.contains("## Verification"));
    assert!(markdown.contains("cargo check"));
    assert!(markdown.contains("cargo test"));
    assert!(markdown.contains("## Available Commands"));
    assert!(markdown.contains("ralphtool agent task done"));
}

struct ContextAdapter;

impl SpecAdapter for ContextAdapter {
    fn stories(&self) -> Result<Vec<Story>, Error> {
        Ok(vec![])
    }
    fn scenarios(&self) -> Result<Vec<Scenario>, Error> {
        Ok(vec![])
    }
    fn context(&self, story_id: &str) -> Result<Context, Error> {
        if story_id == "1" {
            Ok(context())
        } else {
            Err(Error::StoryNotFound(story_id.to_string()))
        }
    }
    fn verify_commands(&self) -> Result<VerifyCommands, Error> {
        Ok(VerifyCommands::default())
    }
    fn tool_prompt(&self) -> String {
        String::new()
    }
}

#[test]
fn generate_instructions_uses_adapter_context() {
    let text = generate_instructions(&ContextAdapter, "1").unwrap();
    assert_eq!(text, build_markdown(&context()));
    assert!(generate_instructions(&ContextAdapter, "2").is_err());
}

#[test]
fn markdown_without_scenarios_or_commands_omits_them() {
    let mut c = context();
    c.scenarios.clear();
    c.verify = VerifyCommands::default();
    let markdown = build_markdown(&c);
    assert!(!markdown.contains("## Scenarios"));
    assert!(!markdown.contains("**Checks:**"));
    assert!(!markdown.contains("**Tests:**"));
    assert!(markdown.ends_with("`ralphtool agent task done <task_id>`\n"));
}
