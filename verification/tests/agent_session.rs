use ralphtool::agent::context::{agent_verify_commands, build_context};
use ralphtool::agent::progress::record_learning;
use ralphtool::agent::session::{
    flush_response, init_response, lock_file_path, new_session, next_story, record_completed_task,
    session_file_path, SessionLearning,
};
use ralphtool::agent::tasks::{scope_error_message, status_response, task_done_response, task_in_story_scope};
use ralphtool::ralph::{Scenario, Story, Task};
use ralphtool::spec::openspec::ProjectMarkers;
use ralphtool::spec::WorkStatus;
use ralphtool::agent::session::{design_with_learnings, learnings_section, start_session};

fn task(id: &str, complete: bool) -> Task {
    Task { id: id.to_string(), description: format!("d{}", id), complete }
}

fn stories() -> Vec<Story> {
    vec![
        Story { id: "1".to_string(), title: "One".to_string(), tasks: vec![task("1.1", true)] },
        Story { id: "2".to_string(), title: "Two".to_string(), tasks: vec![task("2.1", true), task("2.2", false)] },
        Story { id: "3".to_string(), title: "Empty".to_string(), tasks: vec![] },
    ]
}

#[test]
fn session_init_and_next_story() {
    let mut s = new_session("abc".to_string(), "change", "2024-01-01T00:00:00Z".to_string());
    let init = init_response(&s, &stories());
    assert_eq!(init.session_id, "abc");
    assert_eq!(init.stories[1].tasks_total, 2);
    assert_eq!(init.stories[1].tasks_done, 1);
    let next = next_story(&mut s, &stories());
    assert!(!next.complete);
    assert_eq!(next.story_id.as_deref(), Some("2"));
    assert_eq!(next.story_title.as_deref(), Some("Two"));
    assert_eq!(s.current_story_id.as_deref(), Some("2"));
    let done = vec![Story { id: "1".to_string(), title: "One".to_string(), tasks: vec![task("1.1", true)] }];
    let next = next_story(&mut s, &done);
    assert!(next.complete);
    assert!(s.current_story_id.is_none());
}

#[test]
fn session_records_tasks_and_learnings() {
    let mut s = new_session("abc".to_string(), "change", String::new());
    assert!(record_completed_task(&mut s, "2.1"));
    assert!(!record_completed_task(&mut s, "2.1"));
    assert_eq!(s.completed_tasks, vec!["2.1".to_string()]);
    let r = record_learning(&mut s, "use X".to_string(), Some("2.1".to_string()), Some("2".to_string()), "t".to_string());
    assert_eq!(r.total_learnings, 1);
    assert_eq!(s.learnings[0].description, "use X");
    assert_eq!(flush_response(&s).learnings_written, 1);
}

#[test]
fn session_paths() {
    assert_eq!(session_file_path("/tmp", "abc"), "/tmp/ralph/sessions/abc.json");
    assert_eq!(lock_file_path("/work", "c"), "/work/.ralph/locks/c.lock");
}

#[test]
fn task_scope_and_done_response() {
    assert!(task_in_story_scope("2.1", "2"));
    assert!(!task_in_story_scope("21.1", "2"));
    assert!(!task_in_story_scope("3.1", "2"));
    assert_eq!(
        scope_error_message("3.1", "2"),
        "Task '3.1' is not in the current story scope (Story 2).\nYou can only mark tasks from the current story as complete."
    );
    let r = task_done_response("2.1", "2", &stories()).unwrap();
    assert_eq!(r.remaining, vec!["2.2".to_string()]);
    assert!(!r.story_complete);
    let r = task_done_response("1.1", "1", &stories()).unwrap();
    assert!(r.story_complete);
    assert!(task_done_response("9.1", "9", &stories()).is_err());
    assert_eq!(task_done_response("9.1", "9", &stories()).unwrap_err(), "Story '9' not found");
}

#[test]
fn status_of_story_and_change() {
    let work = WorkStatus {
        story_id: "w".to_string(),
        story_tasks_done: 1,
        story_tasks_total: 1,
        change_stories_done: 2,
        change_stories_total: 2,
    };
    let r = status_response(Some("2"), &stories(), &work);
    assert_eq!(r.story.id, "2");
    assert_eq!(r.story.tasks_done, 1);
    assert!(!r.story_complete);
    assert!(r.change_complete);
    let r = status_response(Some("3"), &stories(), &work);
    assert!(!r.story_complete);
    let r = status_response(None, &stories(), &work);
    assert_eq!(r.story.id, "w");
    assert!(r.story_complete);
    let r = status_response(Some("x"), &stories(), &work);
    assert_eq!(r.story.id, "x");
    assert_eq!(r.story.tasks_total, 0);
}

#[test]
fn context_of_current_story() {
    let learnings = vec![SessionLearning {
        description: "L".to_string(),
        task_id: None,
        story_id: Some("2".to_string()),
        timestamp: "t".to_string(),
    }];
    let scenarios = vec![Scenario { name: "S".to_string(), given: vec![], when: "w".to_string(), then_steps: vec![] }];
    let verify = agent_verify_commands(ProjectMarkers { package_json: true, ..ProjectMarkers::default() });
    assert_eq!(verify.checks, vec!["npm run lint".to_string()]);
    let c = build_context(&stories(), "2", "P".to_string(), "D".to_string(), &scenarios, &learnings, verify).unwrap();
    assert_eq!(c.story.title, "Two");
    assert_eq!(c.story.description, "");
    assert_eq!(c.tasks.len(), 2);
    assert!(!c.tasks[1].complete);
    assert_eq!(c.learnings[0].description, "L");
    assert_eq!(c.verify.tests, "npm test");
    assert!(c.patterns.is_empty());
    let none = agent_verify_commands(ProjectMarkers::default());
    let missing = build_context(&stories(), "9", String::new(), String::new(), &scenarios, &learnings, none);
    assert_eq!(missing.err(), Some("Story '9' not found".to_string()));
}

fn learning(desc: &str, task: Option<&str>, story: Option<&str>, ts: &str) -> SessionLearning {
    SessionLearning {
        description: desc.to_string(),
        task_id: task.map(|t| t.to_string()),
        story_id: story.map(|s| s.to_string()),
        timestamp: ts.to_string(),
    }
}

#[test]
fn learnings_grouped_by_date_and_story() {
    let ls = vec![
        learning("b first", None, Some("2"), "2024-02-01T10:00:00+00:00"),
        learning("a", Some("1.1"), Some("1"), "2024-02-01T09:00:00+00:00"),
        learning("old", None, None, "2024-01-31T23:00:00+00:00"),
        learning("b second", Some("2.2"), Some("2"), "2024-02-01T11:00:00+00:00"),
    ];
    let text = learnings_section(&ls);
    assert_eq!(
        text,
        "\n### 2024-01-31 - Story General\n- old\n\n### 2024-02-01 - Story 1\n- a (Task 1.1)\n\n### 2024-02-01 - Story 2\n- b first\n- b second (Task 2.2)\n"
    );
    let d = design_with_learnings("# Design\n", &ls);
    assert!(d.starts_with("# Design\n\n## Learnings\n\n### 2024-01-31"));
    let d2 = design_with_learnings("# Design\n## Learnings\n", &ls[..1].to_vec());
    assert_eq!(d2, "# Design\n## Learnings\n\n### 2024-02-01 - Story 2\n- b first\n");
}

#[test]
fn started_session_has_uuid_and_time() {
    let s = start_session("c");
    assert_eq!(s.session_id.len(), 36);
    assert_eq!(&s.session_id[14..15], "4");
    assert!(s.created_at.contains('T'));
    assert!(s.created_at.ends_with("+00:00"));
    let t = start_session("c");
    assert_ne!(s.session_id, t.session_id);
}

#[test]
fn recording_a_task_twice_keeps_one_entry() {
    let mut s = new_session("id".to_string(), "c", "t".to_string());
    record_completed_task(&mut s, "1.1");
    record_completed_task(&mut s, "1.1");
    assert_eq!(s.completed_tasks, vec!["1.1".to_string()]);
}

#[test]
fn design_with_learnings_keeps_the_document() {
    let ls = vec![learning("note", None, Some("1"), "2024-03-01T10:00:00+00:00")];
    let d = design_with_learnings("# Design\nText\n", &ls);
    assert!(d.starts_with("# Design\nText\n"));
    assert!(d.ends_with("\n### 2024-03-01 - Story 1\n- note\n"));
}
