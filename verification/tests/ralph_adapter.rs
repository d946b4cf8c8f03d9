use ralphtool::ralph::openspec::{parse_spec_md, parse_task_line, parse_tasks_md, OpenSpecAdapter};
use ralphtool::ralph::{ProgressTracker, StoryProvider, TaskSource, VerificationSource};
use ralphtool::spec::openspec::ChangeFiles;

const SPEC: &str = "### Requirement: User Login\nThe system lets users log in.\nThe second line is not the description.\n\n#### Scenario: Valid login\n- **GIVEN** a user\n- **WHEN** they log in\n- **THEN** they are in\n\n#### Scenario: Bad login\n- WHEN the password is wrong\n- THEN an error shows\n\n### Requirement: Logout!\n#### Scenario: Leave\n- WHEN they log out\n";

fn adapter() -> OpenSpecAdapter {
    let files = ChangeFiles {
        change_dir: "/x/openspec/changes/c".to_string(),
        tasks_md: Some("## 1. One\n- [x] 1.1 a\n- [ ] 1.2 b\n## 2. Two\n- [ ] 2.1 c\n".to_string()),
        spec_files: vec![("auth".to_string(), SPEC.to_string())],
        proposal: String::new(),
        design: String::new(),
    };
    OpenSpecAdapter::new("c", files).unwrap()
}

#[test]
fn ralph_parse_task_line_and_tasks() {
    let t = parse_task_line("- [X] 3.1 Shout").unwrap();
    assert!(t.complete);
    assert_eq!(t.id, "3.1");
    let stories = parse_tasks_md("## 1. Setup\n- [ ] 1.1 A\n").unwrap();
    assert_eq!(stories[0].tasks[0].description, "A");
    assert!(!stories[0].tasks[0].complete);
}

#[test]
fn ralph_parse_spec_md_user_stories() {
    let (stories, scenarios, links) = parse_spec_md(SPEC).unwrap();
    assert_eq!(stories.len(), 2);
    assert_eq!(stories[0].id, "user-login");
    assert_eq!(stories[0].title, "User Login");
    assert_eq!(stories[0].description, "The system lets users log in.");
    // A scenario finished by the next scenario becomes a criterion; one
    // finished by a requirement header does not.
    assert_eq!(stories[0].acceptance_criteria, vec!["Valid login".to_string()]);
    assert_eq!(stories[1].id, "logout");
    assert_eq!(stories[1].acceptance_criteria, vec!["Leave".to_string()]);
    assert_eq!(scenarios.len(), 3);
    assert_eq!(scenarios[1].when, "the password is wrong");
    assert_eq!(
        links,
        vec![
            ("Valid login".to_string(), "user-login".to_string()),
            ("Bad login".to_string(), "user-login".to_string()),
            ("Leave".to_string(), "logout".to_string()),
        ]
    );
}

#[test]
fn ralph_tasks_next_and_mark_complete() {
    let mut a = adapter();
    assert_eq!(a.change_name(), "c");
    assert_eq!(a.change_dir(), "/x/openspec/changes/c");
    assert_eq!(a.next_task().unwrap().unwrap().id, "1.2");
    a.mark_complete("1.2").unwrap();
    assert_eq!(a.next_task().unwrap().unwrap().id, "2.1");
    a.mark_complete("2.1").unwrap();
    assert!(a.next_task().unwrap().is_none());
    let err = a.mark_complete("9.9").unwrap_err();
    assert_eq!(err.to_string(), "Task not found: 9.9");
    assert_eq!(a.list_tasks().unwrap().len(), 2);
}

#[test]
fn ralph_stories_next_and_mark_passed() {
    let mut a = adapter();
    assert_eq!(a.list_stories().unwrap().len(), 2);
    assert_eq!(a.next_story().unwrap().unwrap().id, "user-login");
    a.mark_passed("user-login").unwrap();
    assert_eq!(a.next_story().unwrap().unwrap().id, "logout");
    a.mark_passed("logout").unwrap();
    assert!(a.next_story().unwrap().is_none());
    assert_eq!(a.mark_passed("nope").unwrap_err().to_string(), "Story not found: nope");
}

#[test]
fn ralph_scenarios_for_story() {
    let a = adapter();
    let login: Vec<String> = a.scenarios_for("user-login").unwrap().into_iter().map(|s| s.name).collect();
    assert_eq!(login, vec!["Valid login".to_string(), "Bad login".to_string()]);
    assert_eq!(a.scenarios_for("logout").unwrap().len(), 1);
    assert!(a.scenarios_for("other").unwrap().is_empty());
    assert_eq!(a.list_scenarios().unwrap().len(), 3);
}

#[test]
fn ralph_progress_is_not_recorded() {
    let mut a = adapter();
    a.record_learning(ralphtool::ralph::Learning {
        description: "x".to_string(),
        task_id: None,
        story_id: None,
    })
    .unwrap();
    a.record_pattern(ralphtool::ralph::Pattern { name: "p".to_string(), description: "d".to_string() })
        .unwrap();
    assert!(a.list_patterns().unwrap().is_empty());
}

#[test]
fn parse_task_incomplete() {
    let task = parse_task_line("- [ ] 1.1 Add serde dependency").unwrap();
    assert_eq!(task.id, "1.1");
    assert_eq!(task.description, "Add serde dependency");
    assert!(!task.complete);
}

#[test]
fn parse_task_complete() {
    let task = parse_task_line("- [x] 2.3 Implement feature").unwrap();
    assert_eq!(task.id, "2.3");
    assert_eq!(task.description, "Implement feature");
    assert!(task.complete);
}

#[test]
fn parse_task_invalid() {
    assert!(parse_task_line("Not a task").is_none());
    assert!(parse_task_line("- Regular list item").is_none());
}

#[test]
fn parse_tasks_md_basic() {
    let content = r#"
## 1. Setup

- [ ] 1.1 First task
- [x] 1.2 Second task

## 2. Implementation

- [ ] 2.1 Another task
"#;
    let stories = parse_tasks_md(content).unwrap();
    assert_eq!(stories.len(), 2);

    assert_eq!(stories[0].id, "1");
    assert_eq!(stories[0].title, "Setup");
    assert_eq!(stories[0].tasks.len(), 2);
    assert!(!stories[0].tasks[0].complete);
    assert!(stories[0].tasks[1].complete);

    assert_eq!(stories[1].id, "2");
    assert_eq!(stories[1].title, "Implementation");
    assert_eq!(stories[1].tasks.len(), 1);
}
