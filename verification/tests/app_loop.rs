use ralphtool::app::{App, ForceQuitAction, LoopSignal, LoopTab, ResultTab};
use ralphtool::ralph_loop::{LoopState, DEFAULT_MAX_RETRIES};
use ralphtool::ui::result_screen::build_loop_result;

fn ids(v: &[&str]) -> Vec<String> {
    v.iter().map(|s| s.to_string()).collect()
}

#[test]
fn process_loop_events_handles_story_progress() {
    let mut app = App::new();
    let done = app.apply_loop_signals(
        &vec![LoopSignal::Progress { story_id: "1".to_string(), total: 3, completed: 0 }],
        false,
    );
    assert!(!done);
    assert_eq!(app.loop_state.current_story_id, Some("1".to_string()));
    assert_eq!(app.loop_state.total_stories, 3);
    assert!(app.loop_state.started_story_ids.contains(&"1".to_string()));
    assert_eq!(app.loop_selected_story, 0);
}

#[test]
fn process_loop_events_handles_story_event() {
    let mut app = App::new();
    let done = app.apply_loop_signals(&vec![LoopSignal::Event { story_id: "1".to_string() }], false);
    assert!(!done);
    assert!(app.loop_state.started_story_ids.contains(&"1".to_string()));
}

#[test]
fn process_loop_events_handles_complete() {
    let mut app = App::new();
    app.loop_state.running = true;
    let done = app.apply_loop_signals(&vec![LoopSignal::Finished], false);
    assert!(done);
    assert!(!app.loop_state.running);
}

#[test]
fn cleanup_loop_clears_state() {
    let mut app = App::new();
    app.loop_state = LoopState::new("test-change");
    app.loop_state.running = true;
    app.loop_selected_story = 2;
    app.loop_tab = LoopTab::Agent;
    app.loop_info_scroll = 5;
    app.loop_agent_scroll = 10;
    app.loop_agent_auto_scroll = false;
    app.loop_agent_max_scroll = 100;

    app.cleanup_loop();

    assert!(!app.loop_state.running);
    assert_eq!(app.loop_selected_story, 0);
    assert_eq!(app.loop_tab, LoopTab::Info);
    assert_eq!(app.loop_info_scroll, 0);
    assert_eq!(app.loop_agent_scroll, 0);
    assert!(app.loop_agent_auto_scroll);
    assert_eq!(app.loop_agent_max_scroll, 0);
}

#[test]
fn build_loop_result_captures_state() {
    let mut app = App::new();
    app.selected_change_name = Some("my-change".to_string());
    let result = build_loop_result(app.selected_change_name.clone().unwrap_or_default(), vec![], vec![]);
    assert_eq!(result.change_name, "my-change");
}

#[test]
fn visible_stories_returns_all_when_five_or_fewer() {
    let mut app = App::new();
    app.loop_state.started_story_ids = ids(&["1", "2", "3"]);
    assert_eq!(app.visible_stories(), vec!["1", "2", "3"]);
}

#[test]
fn visible_stories_returns_sliding_window_when_more_than_five() {
    let mut app = App::new();
    app.loop_state.started_story_ids = (1..=8).map(|i| i.to_string()).collect();
    app.loop_selected_story = 4;
    let visible = app.visible_stories();
    assert_eq!(visible.len(), 5);
    assert_eq!(visible, vec!["3", "4", "5", "6", "7"]);
}

#[test]
fn visible_stories_window_at_start() {
    let mut app = App::new();
    app.loop_state.started_story_ids = (1..=8).map(|i| i.to_string()).collect();
    app.loop_selected_story = 0;
    assert_eq!(app.visible_stories(), vec!["1", "2", "3", "4", "5"]);
}

#[test]
fn visible_stories_window_at_end() {
    let mut app = App::new();
    app.loop_state.started_story_ids = (1..=8).map(|i| i.to_string()).collect();
    app.loop_selected_story = 7;
    assert_eq!(app.visible_stories(), vec!["4", "5", "6", "7", "8"]);
}

#[test]
fn current_story_returns_selected() {
    let mut app = App::new();
    app.loop_state.started_story_ids = ids(&["a", "b", "c"]);
    app.loop_selected_story = 1;
    assert_eq!(app.current_story(), Some("b"));
}

#[test]
fn current_story_returns_none_when_empty() {
    let app = App::new();
    assert_eq!(app.current_story(), None);
}

#[test]
fn can_navigate_left_when_not_first() {
    let mut app = App::new();
    app.loop_state.started_story_ids = ids(&["1", "2"]);
    app.loop_selected_story = 1;
    assert!(app.can_navigate_left());
}

#[test]
fn cannot_navigate_left_when_first() {
    let mut app = App::new();
    app.loop_state.started_story_ids = ids(&["1", "2"]);
    app.loop_selected_story = 0;
    assert!(!app.can_navigate_left());
}

#[test]
fn can_navigate_right_when_not_last() {
    let mut app = App::new();
    app.loop_state.started_story_ids = ids(&["1", "2"]);
    app.loop_selected_story = 0;
    assert!(app.can_navigate_right());
}

#[test]
fn cannot_navigate_right_when_last() {
    let mut app = App::new();
    app.loop_state.started_story_ids = ids(&["1", "2"]);
    app.loop_selected_story = 1;
    assert!(!app.can_navigate_right());
}

#[test]
fn cannot_navigate_when_empty() {
    let app = App::new();
    assert!(!app.can_navigate_left());
    assert!(!app.can_navigate_right());
}

#[test]
fn auto_selects_new_story_on_progress() {
    let mut app = App::new();
    app.apply_story_progress("1", 3, 0);
    assert_eq!(app.loop_selected_story, 0);
    app.apply_story_progress("2", 3, 1);
    assert_eq!(app.loop_selected_story, 1);
}

#[test]
fn navigate_to_previous_story_decrements_selected() {
    let mut app = App::new();
    app.loop_state.started_story_ids = ids(&["1", "2", "3"]);
    app.loop_selected_story = 2;
    app.navigate_to_previous_story();
    assert_eq!(app.loop_selected_story, 1);
}

#[test]
fn navigate_to_previous_story_stops_at_first() {
    let mut app = App::new();
    app.loop_state.started_story_ids = ids(&["1", "2"]);
    app.loop_selected_story = 0;
    app.navigate_to_previous_story();
    assert_eq!(app.loop_selected_story, 0);
}

#[test]
fn navigate_to_next_story_increments_selected() {
    let mut app = App::new();
    app.loop_state.started_story_ids = ids(&["1", "2", "3"]);
    app.loop_selected_story = 0;
    app.navigate_to_next_story();
    assert_eq!(app.loop_selected_story, 1);
}

#[test]
fn navigate_to_next_story_stops_at_last_started() {
    let mut app = App::new();
    app.loop_state.started_story_ids = ids(&["1", "2"]);
    app.loop_selected_story = 1;
    app.navigate_to_next_story();
    assert_eq!(app.loop_selected_story, 1);
}

#[test]
fn navigate_does_not_select_unstarted_stories() {
    let mut app = App::new();
    app.loop_state.started_story_ids = ids(&["1", "2"]);
    app.loop_state.total_stories = 5;
    app.loop_selected_story = 1;

    app.navigate_to_next_story();
    assert_eq!(app.loop_selected_story, 1);

    app.navigate_to_previous_story();
    assert_eq!(app.loop_selected_story, 0);

    app.navigate_to_previous_story();
    assert_eq!(app.loop_selected_story, 0);
}

#[test]
fn navigate_to_previous_story_resets_scroll_and_auto_scroll() {
    let mut app = App::new();
    app.loop_state.started_story_ids = ids(&["1", "2", "3"]);
    app.loop_selected_story = 2;
    app.loop_info_scroll = 10;
    app.loop_agent_scroll = 15;
    app.loop_agent_auto_scroll = false;

    app.navigate_to_previous_story();

    assert_eq!(app.loop_selected_story, 1);
    assert_eq!(app.loop_info_scroll, 0);
    assert_eq!(app.loop_agent_scroll, 0);
    assert!(app.loop_agent_auto_scroll);
}

#[test]
fn navigate_to_next_story_resets_scroll_and_auto_scroll() {
    let mut app = App::new();
    app.loop_state.started_story_ids = ids(&["1", "2", "3"]);
    app.loop_selected_story = 0;
    app.loop_info_scroll = 10;
    app.loop_agent_scroll = 15;
    app.loop_agent_auto_scroll = false;

    app.navigate_to_next_story();

    assert_eq!(app.loop_selected_story, 1);
    assert_eq!(app.loop_info_scroll, 0);
    assert_eq!(app.loop_agent_scroll, 0);
    assert!(app.loop_agent_auto_scroll);
}

#[test]
fn auto_select_new_story_resets_scroll_and_auto_scroll() {
    let mut app = App::new();
    app.apply_story_progress("1", 3, 0);

    app.loop_info_scroll = 10;
    app.loop_agent_scroll = 15;
    app.loop_agent_auto_scroll = false;

    app.apply_story_progress("2", 3, 1);

    assert_eq!(app.loop_selected_story, 1);
    assert_eq!(app.loop_info_scroll, 0);
    assert_eq!(app.loop_agent_scroll, 0);
    assert!(app.loop_agent_auto_scroll);
}

#[test]
fn switch_loop_tab_toggles_between_info_and_agent() {
    let mut app = App::new();
    assert_eq!(app.loop_tab, LoopTab::Info);
    app.switch_loop_tab();
    assert_eq!(app.loop_tab, LoopTab::Agent);
    app.switch_loop_tab();
    assert_eq!(app.loop_tab, LoopTab::Info);
}

#[test]
fn loop_scroll_respects_current_tab() {
    let mut app = App::new();
    app.loop_scroll_down();
    app.loop_scroll_down();
    assert_eq!(app.loop_info_scroll, 2);
    assert_eq!(app.loop_agent_scroll, 0);

    app.switch_loop_tab();
    app.loop_scroll_down();
    assert_eq!(app.loop_info_scroll, 2);
    assert_eq!(app.loop_agent_scroll, 1);

    app.loop_scroll_up();
    assert_eq!(app.loop_agent_scroll, 0);
}

#[test]
fn loop_scroll_up_disables_auto_scroll_on_agent_tab() {
    let mut app = App::new();
    app.loop_tab = LoopTab::Agent;
    app.loop_agent_auto_scroll = true;
    app.loop_agent_scroll = 5;
    app.loop_scroll_up();
    assert_eq!(app.loop_agent_scroll, 4);
    assert!(!app.loop_agent_auto_scroll);
}

#[test]
fn loop_scroll_up_does_not_affect_auto_scroll_on_info_tab() {
    let mut app = App::new();
    app.loop_tab = LoopTab::Info;
    app.loop_agent_auto_scroll = true;
    app.loop_info_scroll = 5;
    app.loop_scroll_up();
    assert_eq!(app.loop_info_scroll, 4);
    assert!(app.loop_agent_auto_scroll);
}

#[test]
fn loop_scroll_down_enables_auto_scroll_when_at_bottom() {
    let mut app = App::new();
    app.loop_tab = LoopTab::Agent;
    app.loop_agent_auto_scroll = false;
    app.loop_agent_scroll = 9;
    app.loop_agent_max_scroll = 10;
    app.loop_scroll_down();
    assert_eq!(app.loop_agent_scroll, 10);
    assert!(app.loop_agent_auto_scroll);
}

#[test]
fn loop_scroll_down_does_not_enable_auto_scroll_before_bottom() {
    let mut app = App::new();
    app.loop_tab = LoopTab::Agent;
    app.loop_agent_auto_scroll = false;
    app.loop_agent_scroll = 5;
    app.loop_agent_max_scroll = 10;
    app.loop_scroll_down();
    assert_eq!(app.loop_agent_scroll, 6);
    assert!(!app.loop_agent_auto_scroll);
}

#[test]
fn loop_scroll_down_enables_auto_scroll_when_beyond_bottom() {
    let mut app = App::new();
    app.loop_tab = LoopTab::Agent;
    app.loop_agent_auto_scroll = false;
    app.loop_agent_scroll = 10;
    app.loop_agent_max_scroll = 10;
    app.loop_scroll_down();
    assert_eq!(app.loop_agent_scroll, 11);
    assert!(app.loop_agent_auto_scroll);
}

#[test]
fn auto_selects_new_story_on_story_event() {
    let mut app = App::new();
    app.apply_story_event("1");
    assert_eq!(app.loop_selected_story, 0);
    assert_eq!(app.loop_state.started_story_ids.len(), 1);

    app.apply_story_event("2");
    assert_eq!(app.loop_selected_story, 1);
    assert_eq!(app.loop_state.started_story_ids.len(), 2);
}

#[test]
fn does_not_change_selection_for_existing_story() {
    let mut app = App::new();
    app.apply_story_progress("1", 3, 0);
    app.apply_story_progress("2", 3, 1);
    assert_eq!(app.loop_selected_story, 1);

    app.navigate_to_previous_story();
    assert_eq!(app.loop_selected_story, 0);

    app.apply_story_event("2");
    assert_eq!(app.loop_selected_story, 0);
}

#[test]
fn navigate_between_completed_stories_while_agent_works() {
    let mut app = App::new();
    app.loop_state.running = true;

    app.apply_story_progress("1", 3, 0);
    app.apply_story_event("1");
    app.apply_story_event("1");
    app.apply_story_progress("2", 3, 1);
    app.apply_story_event("2");
    app.apply_story_progress("3", 3, 2);
    app.apply_story_event("3");

    assert_eq!(app.loop_selected_story, 2);
    assert_eq!(app.loop_state.started_story_ids.len(), 3);
    assert_eq!(app.loop_state.current_story_id, Some("3".to_string()));

    app.navigate_to_previous_story();
    app.navigate_to_previous_story();
    assert_eq!(app.loop_selected_story, 0);
    assert_eq!(app.current_story(), Some("1"));

    app.navigate_to_next_story();
    assert_eq!(app.loop_selected_story, 1);
    assert_eq!(app.current_story(), Some("2"));

    app.navigate_to_next_story();
    assert_eq!(app.loop_selected_story, 2);
    assert_eq!(app.current_story(), Some("3"));

    assert!(!app.can_navigate_right());
    app.navigate_to_next_story();
    assert_eq!(app.loop_selected_story, 2);
}

#[test]
fn switch_result_tab_toggles_between_tasks_and_changed_files() {
    let mut app = App::new();
    assert_eq!(app.result_tab, ResultTab::Tasks);
    app.switch_result_tab();
    assert_eq!(app.result_tab, ResultTab::ChangedFiles);
    app.switch_result_tab();
    assert_eq!(app.result_tab, ResultTab::Tasks);
}

#[test]
fn result_tasks_scroll_up_decreases_offset() {
    let mut app = App::new();
    app.result_tasks_scroll = 5;
    app.result_tasks_scroll_up();
    assert_eq!(app.result_tasks_scroll, 4);
}

#[test]
fn result_tasks_scroll_down_increases_offset() {
    let mut app = App::new();
    app.result_tasks_scroll = 5;
    app.result_tasks_scroll_down();
    assert_eq!(app.result_tasks_scroll, 6);
}

#[test]
fn result_tasks_scroll_stops_at_zero() {
    let mut app = App::new();
    app.result_tasks_scroll = 0;
    app.result_tasks_scroll_up();
    assert_eq!(app.result_tasks_scroll, 0);
}

#[test]
fn result_scroll_respects_active_tab() {
    let mut app = App::new();
    app.result_tasks_scroll = 3;

    app.result_scroll_down();
    assert_eq!(app.result_tasks_scroll, 4);
    assert_eq!(app.result_scroll_offset, 0);

    app.switch_result_tab();
    app.result_scroll_down();
    assert_eq!(app.result_scroll_offset, 1);
    assert_eq!(app.result_tasks_scroll, 4);
}

#[test]
fn app_result_scroll_preserves_position_when_switching_tabs() {
    let mut app = App::new();
    app.result_tasks_scroll = 10;
    app.switch_result_tab();
    app.result_scroll_offset = 5;
    app.switch_result_tab();
    assert_eq!(app.result_tasks_scroll, 10);
    assert_eq!(app.result_scroll_offset, 5);
}

#[test]
fn with_max_retries_sets_value() {
    let app = App::new().with_max_retries(5);
    assert_eq!(app.max_retries, 5);
}

#[test]
fn default_max_retries_is_default_constant() {
    let app = App::new();
    assert_eq!(app.max_retries, DEFAULT_MAX_RETRIES);
}

#[test]
fn force_quit_first_press_returns_graceful() {
    let mut app = App::new();
    app.loop_state.running = true;
    let action = app.handle_quit_press(false);
    assert_eq!(action, ForceQuitAction::Graceful);
    assert_eq!(app.quit_press_count, 1);
}

#[test]
fn force_quit_second_press_returns_hint() {
    let mut app = App::new();
    app.loop_state.running = true;
    app.handle_quit_press(false);
    let action = app.handle_quit_press(true);
    assert_eq!(action, ForceQuitAction::Hint);
    assert_eq!(app.quit_press_count, 2);
}

#[test]
fn force_quit_third_press_returns_force_quit() {
    let mut app = App::new();
    app.loop_state.running = true;
    app.handle_quit_press(false);
    app.handle_quit_press(true);
    let action = app.handle_quit_press(true);
    assert_eq!(action, ForceQuitAction::ForceQuit);
    assert_eq!(app.quit_press_count, 3);
}

#[test]
fn force_quit_when_not_running_returns_navigate_back() {
    let mut app = App::new();
    app.loop_state.running = false;
    let action = app.handle_quit_press(false);
    assert_eq!(action, ForceQuitAction::NavigateBack);
}

#[test]
fn force_quit_resets_after_timeout() {
    let mut app = App::new();
    app.loop_state.running = true;
    // Two presses were counted; the last one lies outside the window.
    app.quit_press_count = 2;
    app.quit_pressed = true;
    let action = app.handle_quit_press(false);
    assert_eq!(action, ForceQuitAction::Graceful);
    assert_eq!(app.quit_press_count, 1);
}

#[test]
fn reset_quit_counter_clears_state() {
    let mut app = App::new();
    app.quit_press_count = 2;
    app.quit_pressed = true;
    app.reset_quit_counter();
    assert_eq!(app.quit_press_count, 0);
    assert!(!app.quit_pressed);
}

#[test]
fn force_quit_hint_shows_remaining_presses() {
    let mut app = App::new();
    app.loop_state.running = true;

    app.handle_quit_press(false);
    let hint = app.force_quit_hint();
    assert!(hint.is_some());
    assert!(hint.unwrap().contains("2 more times"));

    app.handle_quit_press(true);
    let hint = app.force_quit_hint();
    assert!(hint.is_some());
    assert!(hint.unwrap().contains("1 more time"));
}

#[test]
fn force_quit_hint_none_when_not_running() {
    let mut app = App::new();
    app.loop_state.running = false;
    assert!(app.force_quit_hint().is_none());
}

#[test]
fn force_quit_hint_none_before_first_press() {
    let mut app = App::new();
    app.loop_state.running = true;
    app.quit_press_count = 0;
    assert!(app.force_quit_hint().is_none());
}

#[test]
fn new_story_is_appended_selected_and_scroll_reset() {
    let mut app = App::new();
    app.apply_story_progress("1", 3, 0);
    app.loop_selected_story = 0;
    app.loop_info_scroll = 4;
    app.loop_agent_scroll = 7;
    app.loop_agent_auto_scroll = false;
    app.apply_story_event("2");
    assert_eq!(app.loop_state.started_story_ids, ids(&["1", "2"]));
    assert_eq!(app.loop_selected_story, 1);
    assert_eq!(app.loop_info_scroll, 0);
    assert_eq!(app.loop_agent_scroll, 0);
    assert!(app.loop_agent_auto_scroll);
}

#[test]
fn already_started_story_changes_nothing_in_the_selection() {
    let mut app = App::new();
    app.apply_story_progress("1", 3, 0);
    app.apply_story_progress("2", 3, 1);
    app.loop_selected_story = 0;
    app.loop_info_scroll = 4;
    app.loop_agent_scroll = 7;
    app.loop_agent_auto_scroll = false;
    app.apply_story_event("1");
    app.apply_story_progress("2", 3, 1);
    assert_eq!(app.loop_state.started_story_ids, ids(&["1", "2"]));
    assert_eq!(app.loop_selected_story, 0);
    assert_eq!(app.loop_info_scroll, 4);
    assert_eq!(app.loop_agent_scroll, 7);
    assert!(!app.loop_agent_auto_scroll);
    assert_eq!(app.loop_state.current_story_id, Some("2".to_string()));
    assert_eq!(app.loop_state.completed_stories, 1);
}

#[test]
fn started_stories_accumulate_in_first_seen_order() {
    let mut app = App::new();
    for id in ["a", "b", "a", "c", "b"] {
        app.apply_story_event(id);
    }
    assert_eq!(app.loop_state.started_story_ids, ids(&["a", "b", "c"]));
    assert_eq!(app.loop_selected_story, 2);
}

#[test]
fn max_retries_exceeded_only_records_the_story() {
    let mut app = App::new();
    app.apply_story_progress("1", 3, 0);
    app.loop_state.running = true;
    app.apply_max_retries_exceeded("1");
    assert_eq!(app.max_retries_exceeded_story, Some("1".to_string()));
    assert!(app.loop_state.running);
    assert_eq!(app.loop_state.started_story_ids, ids(&["1"]));
}

#[test]
fn batch_of_signals_tracks_stories_in_first_seen_order() {
    let mut app = App::new();
    app.apply_story_progress("1", 3, 0);
    app.loop_state.running = true;
    let sig = vec![
        LoopSignal::Event { story_id: "1".to_string() },
        LoopSignal::Progress { story_id: "2".to_string(), total: 3, completed: 1 },
        LoopSignal::Event { story_id: "2".to_string() },
        LoopSignal::Event { story_id: "3".to_string() },
        LoopSignal::GaveUp { story_id: "3".to_string() },
    ];
    let done = app.apply_loop_signals(&sig, false);
    assert!(!done);
    assert!(app.loop_state.running);
    assert_eq!(app.loop_state.started_story_ids, ids(&["1", "2", "3"]));
    assert_eq!(app.loop_selected_story, 2);
    assert_eq!(app.loop_state.current_story_id, Some("2".to_string()));
    assert_eq!(app.loop_state.completed_stories, 1);
    assert_eq!(app.max_retries_exceeded_story, Some("3".to_string()));
}

#[test]
fn lost_channel_completes_the_loop() {
    let mut app = App::new();
    app.loop_state.running = true;
    app.loop_selected_story = 0;
    let done = app.apply_loop_signals(&vec![], true);
    assert!(done);
    assert!(!app.loop_state.running);
    assert!(app.loop_state.started_story_ids.is_empty());
}
