use ralphtool::error::Error;
use ralphtool::ralph_loop::orchestrator::{
    failure_outcome, is_story_complete, next_incomplete_story, parse_agent_result, AgentOutcome, AgentResult,
    LoopFailure, NextStep, StoryLoop, COMPLETION_SIGNAL, FAILURE_SIGNAL_PREFIX, FAILURE_SIGNAL_SUFFIX,
};
use ralphtool::ralph_loop::DEFAULT_MAX_RETRIES;
use ralphtool::spec::{Story, Task};

#[test]
fn next_incomplete_story_returns_first_incomplete() {
    let stories = vec![
        Story {
            id: "1".to_string(),
            title: "First".to_string(),
            tasks: vec![Task {
                id: "1.1".to_string(),
                description: "Done".to_string(),
                done: true,
            }],
        },
        Story {
            id: "2".to_string(),
            title: "Second".to_string(),
            tasks: vec![Task {
                id: "2.1".to_string(),
                description: "Not done".to_string(),
                done: false,
            }],
        },
    ];

    let next = next_incomplete_story(&stories);
    assert!(next.is_some());
    assert_eq!(next.unwrap().id, "2");
}

#[test]
fn next_incomplete_story_returns_none_when_all_complete() {
    let stories = vec![Story {
        id: "1".to_string(),
        title: "First".to_string(),
        tasks: vec![Task {
            id: "1.1".to_string(),
            description: "Done".to_string(),
            done: true,
        }],
    }];

    let next = next_incomplete_story(&stories);
    assert!(next.is_none());
}

#[test]
fn is_story_complete_true_when_all_tasks_done() {
    let story = Story {
        id: "1".to_string(),
        title: "Test".to_string(),
        tasks: vec![
            Task { id: "1.1".to_string(), description: "Task 1".to_string(), done: true },
            Task { id: "1.2".to_string(), description: "Task 2".to_string(), done: true },
        ],
    };

    assert!(is_story_complete(&story));
}

#[test]
fn is_story_complete_false_when_any_task_incomplete() {
    let story = Story {
        id: "1".to_string(),
        title: "Test".to_string(),
        tasks: vec![
            Task { id: "1.1".to_string(), description: "Task 1".to_string(), done: true },
            Task { id: "1.2".to_string(), description: "Task 2".to_string(), done: false },
        ],
    };

    assert!(!is_story_complete(&story));
}

#[test]
fn is_story_complete_false_when_no_tasks() {
    let story = Story { id: "1".to_string(), title: "Test".to_string(), tasks: vec![] };

    assert!(!is_story_complete(&story));
}

#[test]
fn completion_signal_constant_is_correct() {
    assert_eq!(COMPLETION_SIGNAL, "<promise>COMPLETE</promise>");
}

#[test]
fn failure_signal_constants_are_correct() {
    assert_eq!(FAILURE_SIGNAL_PREFIX, "<promise>FAILED:");
    assert_eq!(FAILURE_SIGNAL_SUFFIX, "</promise>");
}

#[test]
fn parse_agent_result_detects_complete() {
    let content = "Some output\n<promise>COMPLETE</promise>\nMore output";
    assert_eq!(parse_agent_result(content), AgentResult::Complete);
}

#[test]
fn parse_agent_result_detects_failed_with_reason() {
    let content = "Some output\n<promise>FAILED: Tests did not pass</promise>\nMore output";
    assert_eq!(parse_agent_result(content), AgentResult::Failed("Tests did not pass".to_string()));
}

#[test]
fn parse_agent_result_detects_failed_with_whitespace() {
    let content = "<promise>FAILED:   Multiple spaces reason  </promise>";
    assert_eq!(
        parse_agent_result(content),
        AgentResult::Failed("Multiple spaces reason".to_string())
    );
}

#[test]
fn parse_agent_result_detects_no_signal() {
    let content = "Agent output without any promise signal";
    assert_eq!(parse_agent_result(content), AgentResult::NoSignal);
}

#[test]
fn parse_agent_result_prefers_complete_over_failed() {
    // If both signals are present, COMPLETE takes precedence
    let content = "<promise>FAILED: reason</promise>\n<promise>COMPLETE</promise>";
    assert_eq!(parse_agent_result(content), AgentResult::Complete);
}

#[test]
fn parse_agent_result_handles_empty_failure_reason() {
    let content = "<promise>FAILED:</promise>";
    assert_eq!(parse_agent_result(content), AgentResult::Failed("".to_string()));
}

#[test]
fn parse_agent_result_handles_malformed_failed_signal() {
    // Missing closing tag
    let content = "<promise>FAILED: reason without closing";
    assert_eq!(parse_agent_result(content), AgentResult::NoSignal);
}

#[test]
fn default_max_retries_is_3() {
    assert_eq!(DEFAULT_MAX_RETRIES, 3);
}

#[test]
fn agent_result_complete_is_success() {
    assert!(matches!(AgentResult::Complete, AgentResult::Complete));
}

#[test]
fn agent_result_failed_contains_reason() {
    let result = AgentResult::Failed("test reason".to_string());
    if let AgentResult::Failed(reason) = result {
        assert_eq!(reason, "test reason");
    } else {
        panic!("Expected Failed variant");
    }
}

#[test]
fn agent_result_no_signal_for_abnormal_termination() {
    // Simulates agent crashing or losing context without outputting a signal
    let content = "Some agent output but no promise signal at all";
    let result = parse_agent_result(content);
    assert_eq!(result, AgentResult::NoSignal);
}

#[test]
fn parse_agent_result_with_newlines_in_reason() {
    // Failure reason should work even if it contains newlines before closing tag
    let content = "<promise>FAILED: Test failed\nwith multiple lines\nof error</promise>";
    let result = parse_agent_result(content);
    assert_eq!(
        result,
        AgentResult::Failed("Test failed\nwith multiple lines\nof error".to_string())
    );
}

#[test]
fn parse_agent_result_signal_at_end_of_output() {
    // Signal at the very end of output
    let content = "Lots of agent output...\nMore output...\n<promise>COMPLETE</promise>";
    assert_eq!(parse_agent_result(content), AgentResult::Complete);
}

#[test]
fn parse_agent_result_signal_at_start_of_output() {
    // Signal at the very start of output
    let content = "<promise>COMPLETE</promise>\nMore output follows...";
    assert_eq!(parse_agent_result(content), AgentResult::Complete);
}

#[test]
fn parse_agent_result_failed_with_special_characters() {
    // Failure reason with special characters
    let content = "<promise>FAILED: Error: 'command not found' for path=/usr/bin</promise>";
    assert_eq!(
        parse_agent_result(content),
        AgentResult::Failed("Error: 'command not found' for path=/usr/bin".to_string())
    );
}

#[test]
fn parse_agent_result_failed_with_colon_in_reason() {
    // Failure reason containing additional colons
    let content = "<promise>FAILED: Error: Something: went: wrong</promise>";
    assert_eq!(
        parse_agent_result(content),
        AgentResult::Failed("Error: Something: went: wrong".to_string())
    );
}

// Test the retry count boundary conditions
#[test]
fn retry_count_starts_at_zero_logic() {
    // Verify that retry logic expects count to start at 0
    // and increment after each failure
    let max_retries = 3;

    // Simulate retry counting
    let mut retry_count = 0;

    // First attempt fails
    retry_count += 1;
    assert!(retry_count < max_retries, "Should retry after first failure");

    // Second attempt fails
    retry_count += 1;
    assert!(retry_count < max_retries, "Should retry after second failure");

    // Third attempt fails
    retry_count += 1;
    assert!(retry_count >= max_retries, "Should stop after reaching max retries");
}

#[test]
fn agent_result_eq_for_complete() {
    assert_eq!(AgentResult::Complete, AgentResult::Complete);
}

#[test]
fn agent_result_eq_for_failed_same_reason() {
    assert_eq!(AgentResult::Failed("reason".to_string()), AgentResult::Failed("reason".to_string()));
}

#[test]
fn agent_result_neq_for_failed_different_reason() {
    assert_ne!(AgentResult::Failed("reason1".to_string()), AgentResult::Failed("reason2".to_string()));
}

#[test]
fn agent_result_eq_for_no_signal() {
    assert_eq!(AgentResult::NoSignal, AgentResult::NoSignal);
}

#[test]
fn agent_result_variants_are_distinct() {
    assert_ne!(AgentResult::Complete, AgentResult::NoSignal);
    assert_ne!(AgentResult::Complete, AgentResult::Failed("".to_string()));
    assert_ne!(AgentResult::NoSignal, AgentResult::Failed("".to_string()));
}

fn story(id: &str, done: &[bool]) -> Story {
    Story {
        id: id.to_string(),
        title: format!("Story {}", id),
        tasks: done
            .iter()
            .enumerate()
            .map(|(k, d)| Task { id: format!("{}.{}", id, k + 1), description: String::new(), done: *d })
            .collect(),
    }
}

#[test]
fn story_loop_picks_first_incomplete_story() {
    let mut l = StoryLoop::new("change", 3);
    assert!(l.state.running);
    let stories = vec![story("1", &[true]), story("2", &[true, false]), story("3", &[false])];
    let p = l.select_story(&stories).unwrap();
    assert_eq!(p.story_id, "2");
    assert_eq!(p.story_title, "Story 2");
    assert_eq!(p.current, 2);
    assert_eq!(p.total, 3);
    assert_eq!(p.completed, 1);
    assert_eq!(l.state.current_story_id.as_deref(), Some("2"));
    assert_eq!(l.state.total_stories, 3);
    assert_eq!(l.state.completed_stories, 1);
}

#[test]
fn story_loop_ends_when_all_complete() {
    let mut l = StoryLoop::new("change", 3);
    let stories = vec![story("1", &[true])];
    assert!(l.select_story(&stories).is_none());
    assert!(l.state.current_story_id.is_none());
    l.finish();
    assert!(!l.state.running);
}

#[test]
fn story_loop_retries_then_gives_up() {
    let mut l = StoryLoop::new("change", 3);
    let stories = vec![story("7", &[false])];
    l.select_story(&stories).unwrap();
    let n = l.record_outcome(AgentOutcome::Finished("<promise>FAILED: flaky</promise>".to_string()));
    assert_eq!(n, NextStep::Retry);
    assert_eq!(l.take_retry_reason(), Some("flaky".to_string()));
    assert_eq!(l.take_retry_reason(), None);
    let n = l.record_outcome(AgentOutcome::Finished("no signal".to_string()));
    assert_eq!(n, NextStep::Retry);
    assert_eq!(l.take_retry_reason(), None);
    let n = l.record_outcome(AgentOutcome::Errored(Error::ClaudeNotFound));
    match n {
        NextStep::GiveUp(m) => assert_eq!(
            m,
            "Max retries (3) exceeded for story 7 (Story 7): Coding agent CLI not found.\nPlease ensure it is installed and in your PATH."
        ),
        other => panic!("unexpected {:?}", other),
    }
}

#[test]
fn story_loop_completion_moves_on() {
    let mut l = StoryLoop::new("change", 1);
    let stories = vec![story("1", &[false])];
    l.select_story(&stories).unwrap();
    assert_eq!(
        l.record_outcome(AgentOutcome::Finished(format!("done {}", COMPLETION_SIGNAL))),
        NextStep::NextStory
    );
    match l.record_outcome(AgentOutcome::Finished("<promise>FAILED: x</promise>".to_string())) {
        NextStep::GiveUp(m) => assert_eq!(m, "Max retries (1) exceeded for story 1 (Story 1): x"),
        other => panic!("unexpected {:?}", other),
    }
}

#[test]
fn story_loop_with_zero_retries_attempts_once() {
    let mut l = StoryLoop::new("change", 0);
    l.select_story(&vec![story("1", &[false])]).unwrap();
    match l.record_outcome(AgentOutcome::Finished(String::new())) {
        NextStep::GiveUp(m) => {
            assert_eq!(m, "Max retries (0) exceeded for story 1 (Story 1): agent finished without completion signal")
        }
        other => panic!("unexpected {:?}", other),
    }
}

#[test]
fn orchestrator_stores_max_retries() {
    let l = StoryLoop::new("test-change", 5);
    assert_eq!(l.max_retries, 5);
}

#[test]
fn orchestrator_stores_checkpoint_with_change_name() {
    let l = StoryLoop::new("my-feature", DEFAULT_MAX_RETRIES);
    assert_eq!(l.state.change_name, "my-feature");
}

#[test]
fn learnings_failure_is_reported_and_the_loop_goes_on() {
    let o = failure_outcome(&LoopFailure::Learnings(Error::Io("denied".to_string())));
    assert_eq!(o.message, "IO error: denied");
    assert!(o.go_on);
}

#[test]
fn init_failure_stops_the_loop() {
    let o = failure_outcome(&LoopFailure::Init(Error::Io("no repo".to_string())));
    assert_eq!(o.message, "Failed to initialize checkpoint: IO error: no repo");
    assert!(!o.go_on);
}

#[test]
fn adapter_failure_stops_the_loop() {
    let o = failure_outcome(&LoopFailure::Adapter(Error::ChangeNotFound("c".to_string())));
    assert_eq!(o.message, "Change not found: c");
    assert!(!o.go_on);
}

#[test]
fn failed_drop_is_a_warning_and_the_loop_goes_on() {
    let o = failure_outcome(&LoopFailure::Commit {
        story_id: "2".to_string(),
        error: Error::Io("busy".to_string()),
    });
    assert_eq!(o.message, "Warning: Failed to drop checkpoint for story 2: IO error: busy");
    assert!(o.go_on);
}

#[test]
fn failed_revert_stops_the_loop() {
    let o = failure_outcome(&LoopFailure::Revert {
        story_id: "3".to_string(),
        error: Error::Io("dirty".to_string()),
    });
    assert_eq!(o.message, "Failed to revert checkpoint for story 3: IO error: dirty");
    assert!(!o.go_on);
}
