use ralphtool::app::App;
use ralphtool::spec::{Scenario, Story, Task};
use ralphtool::ui::view::{
    agent_tab_lines, done_lines, info_tab_lines, message_lines, preview_task_lines,
    scenario_tab_lines, story_indicator, AgentEntry, ScreenLine, Tone,
};

fn plain(lines: &[ScreenLine]) -> Vec<Vec<(String, Tone)>> {
    lines
        .iter()
        .map(|l| l.segments.iter().map(|s| (s.text.clone(), s.tone)).collect())
        .collect()
}

fn texts(lines: &[ScreenLine]) -> Vec<String> {
    lines
        .iter()
        .map(|l| l.segments.iter().map(|s| s.text.as_str()).collect::<String>())
        .collect()
}

fn task(id: &str, description: &str, done: bool) -> Task {
    Task { id: id.to_string(), description: description.to_string(), done }
}

fn scenario(name: &str, capability: &str, requirement: &str, when: &str) -> Scenario {
    Scenario {
        name: name.to_string(),
        capability: capability.to_string(),
        requirement_id: requirement.to_string(),
        given: vec!["a state".to_string()],
        when: when.to_string(),
        then_steps: vec!["a result".to_string()],
    }
}

#[test]
fn message_lines_compress_blank_runs() {
    let lines = message_lines("first\n\n\n  \nsecond\n");
    assert_eq!(
        texts(&lines),
        vec!["Assistant:", "  first", "  ", "  second"]
    );
    assert_eq!(plain(&lines)[0], vec![("Assistant:".to_string(), Tone::BlueBold)]);
}

#[test]
fn done_lines_without_content_show_a_note() {
    let lines = done_lines("", "Turns: 1 | Tokens: 2 | Cost: $0.0000");
    assert_eq!(
        texts(&lines),
        vec!["Done:", "  (no content)", "  Turns: 1 | Tokens: 2 | Cost: $0.0000"]
    );
    assert_eq!(plain(&lines)[1][1].1, Tone::DarkGray);
    assert_eq!(plain(&lines)[2][1].1, Tone::Yellow);
}

#[test]
fn done_lines_with_content_are_green() {
    let lines = done_lines("ok\n\n\nbye", "stats");
    assert_eq!(texts(&lines), vec!["Done:", "  ok", "  ", "  bye", "  stats"]);
    assert_eq!(plain(&lines)[1][1], ("ok".to_string(), Tone::Green));
}

#[test]
fn agent_tab_separates_entries_with_two_blank_lines() {
    assert_eq!(texts(&agent_tab_lines(&vec![])), vec!["No agent messages yet"]);
    let entries = vec![
        AgentEntry::Message("hi".to_string()),
        AgentEntry::Done { content: "end".to_string(), stats: "s".to_string() },
    ];
    assert_eq!(
        texts(&agent_tab_lines(&entries)),
        vec!["Assistant:", "  hi", "", "", "Done:", "  end", "  s"]
    );
}

fn loop_app(started: &[&str], selected: usize) -> App {
    let mut app = App::new();
    app.loop_state.started_story_ids = started.iter().map(|s| s.to_string()).collect();
    app.loop_selected_story = selected;
    app
}

#[test]
fn story_indicator_without_started_stories() {
    let app = loop_app(&[], 0);
    let line = story_indicator(&app, &vec![]);
    assert_eq!(texts(&[line]), vec![" Stories: (none started)"]);
}

#[test]
fn story_indicator_shows_window_with_dots() {
    let ids = ["1", "2", "3", "4", "5", "6", "7", "8"];
    let mut app = loop_app(&ids, 4);
    app.loop_state.current_story_id = Some("5".to_string());
    let finished = vec![true, true, true, true, false, false, false, false];
    let line = story_indicator(&app, &finished);
    assert_eq!(texts(&[line.clone()]), vec![" Stories: ... 3 4 5 6 7 ..."]);
    let segs = plain(&[line])[0].clone();
    assert!(segs.contains(&("5".to_string(), Tone::GreenUnderlined)));
    assert!(segs.contains(&("4".to_string(), Tone::Plain)));
}

#[test]
fn story_indicator_marks_finished_current_story_as_selected_only() {
    let mut app = loop_app(&["1", "2"], 1);
    app.loop_state.current_story_id = Some("2".to_string());
    let line = story_indicator(&app, &vec![true, true]);
    assert_eq!(
        plain(&[line])[0],
        vec![
            (" Stories: ".to_string(), Tone::Plain),
            ("1".to_string(), Tone::Plain),
            (" ".to_string(), Tone::Plain),
            ("2".to_string(), Tone::Underlined),
        ]
    );
}

#[test]
fn info_tab_shows_selected_story_tasks() {
    let mut app = loop_app(&["1"], 0);
    app.stories = vec![Story {
        id: "1".to_string(),
        title: "Setup".to_string(),
        tasks: vec![task("1.1", "Create", true), task("1.2", "Test", false)],
    }];
    let lines = info_tab_lines(&app);
    assert_eq!(
        texts(&lines),
        vec!["Story 1: Setup", "", "  ☑ 1.1", "    Create", "  ☐ 1.2", "    Test"]
    );
    assert_eq!(plain(&lines)[3][1].1, Tone::DarkGray);
    assert_eq!(plain(&lines)[5][1].1, Tone::Plain);
}

#[test]
fn info_tab_without_selection_or_story() {
    let app = loop_app(&[], 0);
    assert_eq!(texts(&info_tab_lines(&app)), vec!["No story selected"]);
    let app = loop_app(&["9"], 0);
    assert_eq!(
        texts(&info_tab_lines(&app)),
        vec!["Story ID: 9", "", "(Story details not available)"]
    );
}

#[test]
fn preview_tasks_list_stories_and_tasks() {
    let stories = vec![Story {
        id: "2".to_string(),
        title: "Core".to_string(),
        tasks: vec![task("2.1", "Build", true)],
    }];
    let lines = preview_task_lines(&stories);
    assert_eq!(texts(&lines), vec!["▸ Story 2: Core", "    [x] 2.1 Build", ""]);
    assert_eq!(plain(&lines)[1][1], ("[x]".to_string(), Tone::Green));
}

#[test]
fn scenario_tab_groups_by_capability_and_requirement() {
    let mut app = App::new();
    app.scenarios = vec![
        scenario("S1", "beta", "req-b", "it runs"),
        scenario("S2", "alpha", "req-z", ""),
        scenario("S3", "alpha", "req-a", "x"),
        scenario("S4", "alpha", "req-z", "y"),
    ];
    let lines = scenario_tab_lines(&app);
    assert_eq!(
        texts(&lines),
        vec![
            "▸ alpha",
            "    ● req-a",
            "        ◦ S3",
            "            GIVEN a state",
            "            WHEN x",
            "            THEN a result",
            "    ● req-z",
            "        ◦ S2",
            "            GIVEN a state",
            "            THEN a result",
            "        ◦ S4",
            "            GIVEN a state",
            "            WHEN y",
            "            THEN a result",
            "",
            "▸ beta",
            "    ● req-b",
            "        ◦ S1",
            "            GIVEN a state",
            "            WHEN it runs",
            "            THEN a result",
            "",
        ]
    );
}
