use ralphtool::checkpoint::CompletionOption;
use ralphtool::spec::{Story, Task};
use ralphtool::ui::completion_screen::completion_description;
use ralphtool::ui::result_screen::{build_loop_result, changed_files_of};
use ralphtool::ui::{CompletionData, CompletionReason};

#[test]
fn completion_description_variants() {
    let data = CompletionData { stories_total: 5, completion_reason: CompletionReason::Success, ..Default::default() };
    assert_eq!(completion_description(&data), "All 5 stories completed successfully!");
    let data = CompletionData {
        stories_completed: 2,
        stories_total: 5,
        completion_reason: CompletionReason::MaxRetries { story_id: "story-3".to_string() },
        ..Default::default()
    };
    assert_eq!(completion_description(&data), "Max retries exceeded for story-3. 2 of 5 stories completed.");
    let data = CompletionData {
        stories_completed: 3,
        stories_total: 5,
        completion_reason: CompletionReason::UserStop,
        ..Default::default()
    };
    assert_eq!(completion_description(&data), "Loop stopped. 3 of 5 stories completed.");
}

#[test]
fn completion_options_toggle() {
    let mut data = CompletionData::default();
    assert_eq!(data.selected_completion_option(), CompletionOption::Cleanup);
    data.toggle_option();
    assert_eq!(data.selected_completion_option(), CompletionOption::Keep);
    data.select_cleanup();
    assert_eq!(data.selected_option, 0);
    data.select_keep();
    assert_eq!(data.selected_option, 1);
}

#[test]
fn loop_result_counts() {
    let t = |id: &str, done: bool| Task { id: id.to_string(), description: String::new(), done };
    let stories = vec![
        Story { id: "1".to_string(), title: "A".to_string(), tasks: vec![t("1.1", true), t("1.2", true)] },
        Story { id: "2".to_string(), title: "B".to_string(), tasks: vec![t("2.1", false), t("2.2", true)] },
        Story { id: "3".to_string(), title: "C".to_string(), tasks: vec![] },
    ];
    let files = changed_files_of("M\tsrc/a.rs\r\nA\tsrc/b.rs\n");
    assert_eq!(files, vec!["M\tsrc/a.rs".to_string(), "A\tsrc/b.rs".to_string()]);
    let r = build_loop_result("c".to_string(), stories, files);
    assert_eq!(r.stories_total, 3);
    assert_eq!(r.stories_completed, 1);
    assert_eq!(r.tasks_total, 4);
    assert_eq!(r.tasks_completed, 3);
    assert_eq!(r.changed_files.len(), 2);
}

#[test]
fn default_completion_data() {
    let data = CompletionData::default();
    assert_eq!(data.selected_option, 0);
    assert_eq!(data.selected_completion_option(), CompletionOption::Cleanup);
}

#[test]
fn select_cleanup_sets_option_to_zero() {
    let mut data = CompletionData::default();
    data.selected_option = 1;
    data.select_cleanup();
    assert_eq!(data.selected_option, 0);
}

#[test]
fn select_keep_sets_option_to_one() {
    let mut data = CompletionData::default();
    data.select_keep();
    assert_eq!(data.selected_option, 1);
}

#[test]
fn toggle_option_switches_between_options() {
    let mut data = CompletionData::default();
    assert_eq!(data.selected_option, 0);
    data.toggle_option();
    assert_eq!(data.selected_option, 1);
    data.toggle_option();
    assert_eq!(data.selected_option, 0);
}

#[test]
fn selected_completion_option_returns_correct_variant() {
    let mut data = CompletionData::default();
    assert_eq!(data.selected_completion_option(), CompletionOption::Cleanup);
    data.select_keep();
    assert_eq!(data.selected_completion_option(), CompletionOption::Keep);
}

#[test]
fn completion_description_success() {
    let data = CompletionData {
        stories_total: 5,
        completion_reason: CompletionReason::Success,
        ..Default::default()
    };
    let desc = completion_description(&data);
    assert!(desc.contains("5 stories completed successfully"));
}

#[test]
fn completion_description_max_retries() {
    let data = CompletionData {
        stories_completed: 2,
        stories_total: 5,
        completion_reason: CompletionReason::MaxRetries { story_id: "story-3".to_string() },
        ..Default::default()
    };
    let desc = completion_description(&data);
    assert!(desc.contains("Max retries exceeded"));
    assert!(desc.contains("story-3"));
    assert!(desc.contains("2 of 5"));
}

#[test]
fn completion_description_user_stop() {
    let data = CompletionData {
        stories_completed: 3,
        stories_total: 5,
        completion_reason: CompletionReason::UserStop,
        ..Default::default()
    };
    let desc = completion_description(&data);
    assert!(desc.contains("Loop stopped"));
    assert!(desc.contains("3 of 5"));
}
