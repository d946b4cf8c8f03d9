use ralphtool::error::Error;
use ralphtool::spec::prompt::{generate_prompt, get_change_directory};
use ralphtool::spec::{Context, Scenario, SpecAdapter, Story, VerifyCommands};

struct MockAdapter {
    verify: VerifyCommands,
}

impl SpecAdapter for MockAdapter {
    fn stories(&self) -> Result<Vec<Story>, Error> {
        Ok(vec![])
    }

    fn scenarios(&self) -> Result<Vec<Scenario>, Error> {
        Ok(vec![])
    }

    fn context(&self, _story_id: &str) -> Result<Context, Error> {
        unreachable!()
    }

    fn verify_commands(&self) -> Result<VerifyCommands, Error> {
        Ok(self.verify.clone())
    }

    fn tool_prompt(&self) -> String {
        String::new()
    }
}

const CWD: &str = "/work/project";

#[test]
fn generates_prompt_with_change_location() {
    let adapter = MockAdapter {
        verify: VerifyCommands {
            checks: vec!["cargo check".to_string()],
            tests: "cargo test".to_string(),
        },
    };

    let prompt = generate_prompt("my-change", CWD, &adapter).unwrap();

    assert!(prompt.contains("my-change"));
    assert!(prompt.contains("openspec/changes/my-change"));
}

#[test]
fn generates_prompt_with_workflow_instructions() {
    let adapter = MockAdapter { verify: VerifyCommands { checks: vec![], tests: String::new() } };

    let prompt = generate_prompt("test", CWD, &adapter).unwrap();

    assert!(prompt.contains("proposal.md"));
    assert!(prompt.contains("design.md"));
    assert!(prompt.contains("tasks.md"));
    assert!(prompt.contains("specs/"));
}

#[test]
fn generates_prompt_with_task_marking_instructions() {
    let adapter = MockAdapter { verify: VerifyCommands { checks: vec![], tests: String::new() } };

    let prompt = generate_prompt("test", CWD, &adapter).unwrap();

    assert!(prompt.contains("- [ ]"));
    assert!(prompt.contains("- [x]"));
    assert!(prompt.contains("Edit"));
}

#[test]
fn generates_prompt_with_verification_commands() {
    let adapter = MockAdapter {
        verify: VerifyCommands {
            checks: vec!["cargo check".to_string(), "cargo clippy".to_string()],
            tests: "cargo test".to_string(),
        },
    };

    let prompt = generate_prompt("test", CWD, &adapter).unwrap();

    assert!(prompt.contains("cargo check"));
    assert!(prompt.contains("cargo clippy"));
    assert!(prompt.contains("cargo test"));
}

#[test]
fn generates_prompt_with_story_progression() {
    let adapter = MockAdapter { verify: VerifyCommands { checks: vec![], tests: String::new() } };

    let prompt = generate_prompt("test", CWD, &adapter).unwrap();

    assert!(prompt.contains("Story 1 before"));
    assert!(prompt.contains("Story 2"));
}

struct FailingAdapter;

impl SpecAdapter for FailingAdapter {
    fn stories(&self) -> Result<Vec<Story>, Error> {
        Ok(vec![])
    }

    fn scenarios(&self) -> Result<Vec<Scenario>, Error> {
        Ok(vec![])
    }

    fn context(&self, _story_id: &str) -> Result<Context, Error> {
        unreachable!()
    }

    fn verify_commands(&self) -> Result<VerifyCommands, Error> {
        Err(Error::Parse("test error".to_string()))
    }

    fn tool_prompt(&self) -> String {
        String::new()
    }
}

#[test]
fn propagates_error_from_verify_commands() {
    let adapter = FailingAdapter;

    let result = generate_prompt("test", CWD, &adapter);

    assert!(result.is_err());
}

#[test]
fn change_directory_joins_paths() {
    assert_eq!(get_change_directory("/work", "c"), "/work/openspec/changes/c");
    assert_eq!(get_change_directory("/work/", "c"), "/work/openspec/changes/c");
    assert_eq!(get_change_directory("", "c"), "openspec/changes/c");
    assert_eq!(get_change_directory("/work", "/abs"), "/abs");
}

#[test]
fn prompt_has_exact_header_and_tests_block() {
    let adapter = MockAdapter { verify: VerifyCommands { checks: vec![], tests: "make test".to_string() } };
    let prompt = generate_prompt("x", "/p", &adapter).unwrap();
    assert!(prompt.starts_with("# Working on Change: x\n\n## Change Location\n"));
    assert!(prompt.contains("The change files are located at: `/p/openspec/changes/x`\n"));
    assert!(prompt.contains("\nRun tests:\n```bash\nmake test\n```\n"));
    assert!(!prompt.contains("Run these checks"));
    assert!(prompt.ends_with("Stop when all tasks in all stories are marked complete."));
}
