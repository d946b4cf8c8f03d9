use ralphtool::app::{App, ForceQuitAction, LoopTab, PreviewTab, ResultTab, Screen};
use ralphtool::ralph_loop::{DEFAULT_COMMAND_TIMEOUT_SECS, DEFAULT_MAX_RETRIES};
use ralphtool::spec::openspec::ChangeInfo;
use ralphtool::ui::{CompletionReason, LoopResult};
use ralphtool::spec::Scenario;

fn running_app(stories: &[&str]) -> App {
    let mut app = App::new();
    app.selected_change_name = Some("c".to_string());
    assert!(app.start_loop());
    for s in stories {
        app.apply_story_progress(s, stories.len(), 0);
    }
    app
}

#[test]
fn new_app_defaults() {
    let app = App::new();
    assert!(app.running);
    assert_eq!(app.screen, Screen::ChangeSelection);
    assert_eq!(app.max_retries, DEFAULT_MAX_RETRIES);
    assert_eq!(app.command_timeout, DEFAULT_COMMAND_TIMEOUT_SECS);
    let app = app.with_max_retries(5).with_command_timeout(60);
    assert_eq!(app.max_retries, 5);
    assert_eq!(app.command_timeout, 60);
}

#[test]
fn selection_wraps_around() {
    let mut app = App::new();
    for name in ["a", "b", "c"] {
        app.available_changes.push(ChangeInfo {
            name: name.to_string(),
            completed_tasks: 1,
            total_tasks: 1,
            last_modified: String::new(),
            status: "complete".to_string(),
        });
    }
    app.select_previous();
    assert_eq!(app.selected_index, 2);
    app.select_next();
    assert_eq!(app.selected_index, 0);
    app.select_change(1, vec![], vec![]);
    assert_eq!(app.selected_change_name.as_deref(), Some("b"));
    assert_eq!(app.screen, Screen::ConversionPreview);
    app.back_to_selection();
    assert_eq!(app.screen, Screen::ChangeSelection);
    assert_eq!(app.selected_index, 0);
}

#[test]
fn preview_scroll_is_kept_per_tab() {
    let mut app = App::new();
    app.page_down();
    app.scroll_down();
    assert_eq!(app.get_scroll_offset(), 11);
    app.switch_to_next_tab();
    assert_eq!(app.active_tab, PreviewTab::Scenarios);
    assert_eq!(app.get_scroll_offset(), 0);
    app.scroll_up();
    assert_eq!(app.get_scroll_offset(), 0);
    app.switch_to_previous_tab();
    assert_eq!(app.get_scroll_offset(), 11);
    app.page_up();
    assert_eq!(app.get_scroll_offset(), 1);
}

#[test]
fn auto_selects_new_story_and_navigates() {
    let mut app = running_app(&["1", "2", "3"]);
    assert_eq!(app.loop_selected_story, 2);
    assert_eq!(app.current_story(), Some("3"));
    assert!(!app.can_navigate_right());
    app.navigate_to_previous_story();
    app.navigate_to_previous_story();
    app.navigate_to_previous_story();
    assert_eq!(app.loop_selected_story, 0);
    assert!(!app.can_navigate_left());
    app.loop_agent_scroll = 4;
    app.loop_agent_auto_scroll = false;
    app.navigate_to_next_story();
    assert_eq!(app.loop_selected_story, 1);
    assert_eq!(app.loop_agent_scroll, 0);
    assert!(app.loop_agent_auto_scroll);
    // An event of a known story does not move the selection.
    app.apply_story_event("1");
    assert_eq!(app.loop_selected_story, 1);
    app.apply_story_event("4");
    assert_eq!(app.loop_selected_story, 3);
}

#[test]
fn visible_stories_slide_with_selection() {
    let mut app = running_app(&["1", "2", "3", "4", "5", "6", "7", "8"]);
    assert_eq!(app.visible_stories(), vec!["4", "5", "6", "7", "8"]);
    app.loop_selected_story = 0;
    assert_eq!(app.visible_stories(), vec!["1", "2", "3", "4", "5"]);
    app.loop_selected_story = 4;
    assert_eq!(app.visible_stories(), vec!["3", "4", "5", "6", "7"]);
    let small = running_app(&["a", "b"]);
    assert_eq!(small.visible_stories(), vec!["a", "b"]);
}

#[test]
fn loop_scroll_and_auto_scroll() {
    let mut app = running_app(&["1"]);
    app.loop_scroll_down();
    assert_eq!(app.loop_info_scroll, 1);
    app.switch_loop_tab();
    assert_eq!(app.loop_tab, LoopTab::Agent);
    app.loop_agent_max_scroll = 2;
    app.loop_scroll_up();
    assert!(!app.loop_agent_auto_scroll);
    app.loop_scroll_down();
    assert!(!app.loop_agent_auto_scroll);
    app.loop_scroll_down();
    assert!(app.loop_agent_auto_scroll);
    assert_eq!(app.loop_info_scroll, 1);
}

#[test]
fn quit_presses_escalate() {
    let mut app = running_app(&["1"]);
    assert_eq!(app.force_quit_hint(), None);
    assert_eq!(app.handle_quit_press(false), ForceQuitAction::Graceful);
    assert_eq!(app.force_quit_hint(), Some("Press 'q' 2 more times to force-quit".to_string()));
    assert_eq!(app.handle_quit_press(true), ForceQuitAction::Hint);
    assert_eq!(app.force_quit_hint(), Some("Press 'q' 1 more time to force-quit".to_string()));
    assert_eq!(app.handle_quit_press(true), ForceQuitAction::ForceQuit);
    assert_eq!(app.force_quit_hint(), None);
    // A press outside the window starts over.
    assert_eq!(app.handle_quit_press(false), ForceQuitAction::Graceful);
    app.reset_quit_counter();
    assert_eq!(app.quit_press_count, 0);
    app.apply_loop_finished();
    assert_eq!(app.handle_quit_press(true), ForceQuitAction::NavigateBack);
}

#[test]
fn event_result_scroll_preserves_position_when_switching_tabs() {
    let mut app = App::new();
    app.show_loop_result(LoopResult::default());
    app.result_scroll_down();
    app.result_scroll_down();
    app.switch_result_tab();
    assert_eq!(app.result_tab, ResultTab::ChangedFiles);
    app.result_scroll_down();
    app.switch_result_tab();
    assert_eq!(app.result_tasks_scroll, 2);
    assert_eq!(app.result_scroll_offset, 1);
    app.result_tasks_scroll_up();
    app.result_tasks_scroll_down();
    assert_eq!(app.result_tasks_scroll, 2);
    app.result_scroll_up();
    assert_eq!(app.result_tasks_scroll, 1);
}

#[test]
fn completion_screen_and_cleanup() {
    let mut app = running_app(&["1", "2"]);
    app.apply_story_progress("2", 2, 1);
    app.apply_max_retries_exceeded("2");
    app.apply_loop_finished();
    app.show_completion_screen(
        CompletionReason::MaxRetries { story_id: "2".to_string() },
        "main".to_string(),
        "ralph/c".to_string(),
    );
    assert_eq!(app.screen, Screen::LoopCompletion);
    assert_eq!(app.completion_data.stories_completed, 1);
    assert_eq!(app.completion_data.stories_total, 2);
    app.cleanup_loop();
    assert!(app.loop_state.started_story_ids.is_empty());
    assert_eq!(app.loop_selected_story, 0);
    app.quit();
    assert!(!app.running);
}

#[test]
fn unique_capabilities_sorted_and_distinct() {
    let mut app = App::new();
    for cap in ["zeta", "alpha", "zeta", "Beta", "alpha"] {
        app.scenarios.push(Scenario {
            name: format!("s-{}", cap),
            capability: cap.to_string(),
            requirement_id: String::new(),
            given: vec![],
            when: String::new(),
            then_steps: vec![],
        });
    }
    assert_eq!(app.unique_capabilities(), vec!["Beta", "alpha", "zeta"]);
    let alpha = app.scenarios_for_capability("alpha");
    assert_eq!(alpha.len(), 2);
    assert!(alpha.iter().all(|s| s.capability == "alpha"));
}

#[test]
fn loop_end_reason_follows_completion_and_stop() {
    let mut app = App::new();
    app.selected_change_name = Some("c".to_string());
    app.start_loop();
    assert_eq!(app.loop_end_reason(false, true), None);
    assert_eq!(app.loop_end_reason(true, false), Some(CompletionReason::Success));
    app.apply_max_retries_exceeded("2");
    assert_eq!(
        app.loop_end_reason(true, false),
        Some(CompletionReason::MaxRetries { story_id: "2".to_string() })
    );
    app.loop_state.running = false;
    assert_eq!(app.loop_end_reason(false, false), None);
    assert_eq!(app.loop_end_reason(false, true), Some(CompletionReason::UserStop));
}

#[test]
fn preview_scroll_and_selection_round_trip() {
    let mut app = App::new();
    app.tasks_scroll_offset = 4;
    app.scroll_down();
    app.scroll_up();
    assert_eq!(app.tasks_scroll_offset, 4);
    app.page_down();
    app.page_up();
    assert_eq!(app.tasks_scroll_offset, 4);

    app.available_changes = vec![
        ChangeInfo { name: "a".into(), completed_tasks: 1, total_tasks: 1, last_modified: "2024-01-01".into(), status: "complete".into() },
        ChangeInfo { name: "b".into(), completed_tasks: 1, total_tasks: 1, last_modified: "2024-01-01".into(), status: "complete".into() },
    ];
    app.selected_index = 1;
    app.select_next();
    assert_eq!(app.selected_index, 0);
    app.select_previous();
    assert_eq!(app.selected_index, 1);
}
