use ralphtool::agent::prompt::{format_scenarios, format_tasks};
use ralphtool::agent::PromptBuilder;
use ralphtool::error::Error;
use ralphtool::spec::{Context, Scenario, SpecAdapter, Story, Task, VerifyCommands};

struct MockAdapter {
    story: Story,
    scenarios: Vec<Scenario>,
}

impl SpecAdapter for MockAdapter {
    fn stories(&self) -> Result<Vec<Story>, Error> {
        Ok(vec![self.story.clone()])
    }

    fn scenarios(&self) -> Result<Vec<Scenario>, Error> {
        Ok(self.scenarios.clone())
    }

    fn context(&self, _story_id: &str) -> Result<Context, Error> {
        Ok(Context {
            story: self.story.clone(),
            proposal: "Test proposal".to_string(),
            design: "Test design".to_string(),
            scenarios: self.scenarios.clone(),
            verify: VerifyCommands {
                checks: vec!["cargo check".to_string()],
                tests: "cargo test".to_string(),
            },
        })
    }

    fn verify_commands(&self) -> Result<VerifyCommands, Error> {
        Ok(VerifyCommands {
            checks: vec!["cargo check".to_string()],
            tests: "cargo test".to_string(),
        })
    }

    fn tool_prompt(&self) -> String {
        "## Tool Instructions\nMock tool instructions".to_string()
    }
}

fn empty_story_adapter() -> MockAdapter {
    MockAdapter {
        story: Story {
            id: "1".to_string(),
            title: "Test Story".to_string(),
            tasks: vec![],
        },
        scenarios: vec![],
    }
}

#[test]
fn for_story_includes_story_header() {
    let adapter = empty_story_adapter();

    let builder = PromptBuilder::new(&adapter, "test-change");
    let prompt = builder.for_story("1").unwrap();

    assert!(prompt.user.contains("Story 1: Test Story"));
    assert!(prompt.system.is_empty());
}

#[test]
fn for_story_includes_tasks() {
    let adapter = MockAdapter {
        story: Story {
            id: "1".to_string(),
            title: "Test Story".to_string(),
            tasks: vec![
                Task {
                    id: "1.1".to_string(),
                    description: "First task".to_string(),
                    done: false,
                },
                Task {
                    id: "1.2".to_string(),
                    description: "Second task".to_string(),
                    done: true,
                },
            ],
        },
        scenarios: vec![],
    };

    let builder = PromptBuilder::new(&adapter, "test-change");
    let prompt = builder.for_story("1").unwrap();

    assert!(prompt.user.contains("[ ] 1.1 First task"));
    assert!(prompt.user.contains("[x] 1.2 Second task"));
}

#[test]
fn for_story_includes_completion_signal() {
    let adapter = empty_story_adapter();

    let builder = PromptBuilder::new(&adapter, "test-change");
    let prompt = builder.for_story("1").unwrap();

    assert!(prompt.user.contains("<promise>COMPLETE</promise>"));
}

#[test]
fn for_story_includes_scenario_focus_instruction() {
    let adapter = MockAdapter {
        story: Story {
            id: "1".to_string(),
            title: "Test Story".to_string(),
            tasks: vec![],
        },
        scenarios: vec![Scenario {
            name: "Test Scenario".to_string(),
            capability: "test-capability".to_string(),
            requirement_id: "req-1".to_string(),
            given: vec!["a condition".to_string()],
            when: "action happens".to_string(),
            then_steps: vec!["result occurs".to_string()],
        }],
    };

    let builder = PromptBuilder::new(&adapter, "test-change");
    let prompt = builder.for_story("1").unwrap();

    assert!(prompt.user.contains("Focus on scenarios relevant to this story"));
    assert!(prompt.user.contains("Test Scenario"));
}

#[test]
fn for_story_includes_tool_prompt() {
    let adapter = empty_story_adapter();

    let builder = PromptBuilder::new(&adapter, "test-change");
    let prompt = builder.for_story("1").unwrap();

    assert!(prompt.user.contains("Mock tool instructions"));
}

#[test]
fn for_story_scopes_to_single_story() {
    let adapter = empty_story_adapter();

    let builder = PromptBuilder::new(&adapter, "test-change");
    let prompt = builder.for_story("1").unwrap();

    assert!(prompt.user.contains("Story 1 only"));
    assert!(prompt.user.contains("Do not work on other stories"));
}

#[test]
fn for_story_includes_failure_signal_instructions() {
    let adapter = empty_story_adapter();

    let builder = PromptBuilder::new(&adapter, "test-change");
    let prompt = builder.for_story("1").unwrap();

    assert!(prompt.user.contains("## Failure Signal"));
    assert!(prompt.user.contains("<promise>FAILED:"));
    assert!(prompt.user.contains("</promise>"));
}

#[test]
fn for_story_with_retry_context_includes_failure_reason() {
    let adapter = empty_story_adapter();

    let builder = PromptBuilder::new(&adapter, "test-change");
    let prompt = builder
        .for_story_with_retry_context("1", Some("Tests failed due to missing mock".to_string()))
        .unwrap();

    assert!(prompt.user.contains("## Previous Attempt Failed"));
    assert!(prompt.user.contains("Tests failed due to missing mock"));
    assert!(prompt.user.contains("address this issue"));
}

#[test]
fn for_story_with_retry_context_none_has_no_failure_section() {
    let adapter = empty_story_adapter();

    let builder = PromptBuilder::new(&adapter, "test-change");
    let prompt = builder.for_story_with_retry_context("1", None).unwrap();

    assert!(!prompt.user.contains("## Previous Attempt Failed"));
}

#[test]
fn for_story_delegates_to_for_story_with_retry_context() {
    let adapter = empty_story_adapter();

    let builder = PromptBuilder::new(&adapter, "test-change");
    let prompt1 = builder.for_story("1").unwrap();
    let prompt2 = builder.for_story_with_retry_context("1", None).unwrap();

    // Both should produce the same output
    assert_eq!(prompt1.user, prompt2.user);
}

#[test]
fn for_story_with_learnings_includes_learnings_section() {
    let adapter = empty_story_adapter();

    let learnings = "## Story 1 Learnings\n- Discovered pattern X\n- Decided on approach Y";
    let builder =
        PromptBuilder::new(&adapter, "test-change").with_learnings(Some(learnings.to_string()));
    let prompt = builder.for_story("1").unwrap();

    assert!(prompt.user.contains("## Shared Learnings"));
    assert!(prompt.user.contains("discoveries, decisions, and gotchas"));
    assert!(prompt.user.contains("test-change-learnings.md"));
    assert!(prompt.user.contains("Discovered pattern X"));
    assert!(prompt.user.contains("Decided on approach Y"));
}

#[test]
fn for_story_without_learnings_omits_learnings_section() {
    let adapter = empty_story_adapter();

    let builder = PromptBuilder::new(&adapter, "test-change").with_learnings(None);
    let prompt = builder.for_story("1").unwrap();

    assert!(!prompt.user.contains("## Shared Learnings"));
    assert!(!prompt.user.contains("learnings file"));
}

#[test]
fn for_story_default_has_no_learnings() {
    let adapter = empty_story_adapter();

    // Default builder (without calling with_learnings)
    let builder = PromptBuilder::new(&adapter, "test-change");
    let prompt = builder.for_story("1").unwrap();

    assert!(!prompt.user.contains("## Shared Learnings"));
}

#[test]
fn learnings_section_appears_before_verification_scenarios() {
    let adapter = empty_story_adapter();

    let learnings = "## Some Learnings";
    let builder =
        PromptBuilder::new(&adapter, "test-change").with_learnings(Some(learnings.to_string()));
    let prompt = builder.for_story("1").unwrap();

    // Find positions of both sections
    let learnings_pos = prompt.user.find("## Shared Learnings").unwrap();
    let scenarios_pos = prompt.user.find("## Verification Scenarios").unwrap();

    // Learnings should appear before scenarios
    assert!(learnings_pos < scenarios_pos);
}

struct FailingContextAdapter;

impl SpecAdapter for FailingContextAdapter {
    fn stories(&self) -> Result<Vec<Story>, Error> {
        Ok(vec![])
    }
    fn scenarios(&self) -> Result<Vec<Scenario>, Error> {
        Ok(vec![])
    }
    fn context(&self, story_id: &str) -> Result<Context, Error> {
        Err(Error::StoryNotFound(story_id.to_string()))
    }
    fn verify_commands(&self) -> Result<VerifyCommands, Error> {
        Ok(VerifyCommands::default())
    }
    fn tool_prompt(&self) -> String {
        String::new()
    }
}

#[test]
fn for_story_propagates_context_error() {
    let adapter = FailingContextAdapter;
    let builder = PromptBuilder::new(&adapter, "c");
    match builder.for_story("9") {
        Err(e) => assert_eq!(e.code(), "STORY_NOT_FOUND"),
        Ok(_) => panic!("expected an error"),
    }
}

#[test]
fn format_tasks_placeholder_and_lines() {
    let empty = Story { id: "1".to_string(), title: "T".to_string(), tasks: vec![] };
    assert_eq!(format_tasks(&empty), "(No tasks defined)\n");
    let story = Story {
        id: "1".to_string(),
        title: "T".to_string(),
        tasks: vec![Task { id: "1.1".to_string(), description: "A".to_string(), done: true }],
    };
    assert_eq!(format_tasks(&story), "- [x] 1.1 A\n");
}

#[test]
fn format_scenarios_exact() {
    assert_eq!(format_scenarios(&[]), "(No scenarios defined)\n");
    let s = Scenario {
        name: "S".to_string(),
        capability: "cap".to_string(),
        requirement_id: "r".to_string(),
        given: vec!["g".to_string()],
        when: String::new(),
        then_steps: vec!["t1".to_string(), "t2".to_string()],
    };
    assert_eq!(
        format_scenarios(&[s]),
        "### S (cap)\n\n- **GIVEN** g\n- **THEN** t1\n- **THEN** t2\n"
    );
}

#[test]
fn formatted_task_lines_parse_back_to_the_same_tasks() {
    let story = Story {
        id: "3".to_string(),
        title: "Parse".to_string(),
        tasks: vec![
            Task { id: "3.1".to_string(), description: "Read the file".to_string(), done: true },
            Task { id: "3.2".to_string(), description: "Write tests".to_string(), done: false },
        ],
    };
    let text = format_tasks(&story);
    let parsed: Vec<Task> = text
        .lines()
        .filter_map(|l| ralphtool::spec::openspec::parse_task_line(l))
        .collect();
    assert_eq!(parsed, story.tasks);
}
