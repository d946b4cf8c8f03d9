use ralphtool::agent::claude::{build_command_args, line_event, LineEvent, StreamLine};
use ralphtool::agent::{ClaudeAgent, Prompt};

#[test]
fn agent_new_creates_instance() {
    let agent = ClaudeAgent::new();
    assert!(std::mem::size_of_val(&agent) == 0); // Zero-sized type
}

#[test]
fn build_args_includes_required_flags() {
    let prompt = Prompt {
        system: String::new(),
        user: "test prompt".to_string(),
    };

    let args = build_command_args(&prompt);
    assert!(args.contains(&"-p".to_string()));
    assert!(args.contains(&"test prompt".to_string()));
    assert!(args.contains(&"--output-format".to_string()));
    assert!(args.contains(&"stream-json".to_string()));
    assert!(args.contains(&"--verbose".to_string()));
    assert!(args.contains(&"--dangerously-skip-permissions".to_string()));
}

#[test]
fn build_args_includes_system_prompt_when_provided() {
    let prompt = Prompt {
        system: "You are helpful".to_string(),
        user: "test prompt".to_string(),
    };

    let args = build_command_args(&prompt);
    assert!(args.contains(&"--append-system-prompt".to_string()));
    assert!(args.contains(&"You are helpful".to_string()));
}

#[test]
fn build_args_excludes_system_prompt_when_empty() {
    let prompt = Prompt {
        system: String::new(),
        user: "test prompt".to_string(),
    };

    let args = build_command_args(&prompt);
    assert!(!args.contains(&"--append-system-prompt".to_string()));
}

#[test]
fn build_args_exact_order() {
    let prompt = Prompt {
        system: "sys".to_string(),
        user: "usr".to_string(),
    };
    let args = build_command_args(&prompt);
    assert_eq!(
        args,
        vec![
            "-p",
            "usr",
            "--output-format",
            "stream-json",
            "--verbose",
            "--dangerously-skip-permissions",
            "--append-system-prompt",
            "sys"
        ]
    );
}

#[test]
fn stream_line_events() {
    assert!(line_event(StreamLine::System).is_none());
    assert!(line_event(StreamLine::Assistant(vec![None])).is_none());
    match line_event(StreamLine::Assistant(vec![None, Some("hi".to_string()), Some("no".to_string())])) {
        Some(LineEvent::Message(m)) => assert_eq!(m, "hi"),
        _ => panic!("expected a message"),
    }
    match line_event(StreamLine::Result {
        result: "done".to_string(),
        num_turns: 3,
        input_tokens: 10,
        output_tokens: 5,
    }) {
        Some(LineEvent::Done { content, turns, tokens }) => {
            assert_eq!(content, "done");
            assert_eq!(turns, 3);
            assert_eq!(tokens, 15);
        }
        _ => panic!("expected a result"),
    }
    match line_event(StreamLine::Result {
        result: String::new(),
        num_turns: 0,
        input_tokens: u32::MAX,
        output_tokens: 1,
    }) {
        Some(LineEvent::Done { tokens, .. }) => assert_eq!(tokens, u32::MAX),
        _ => panic!("expected a result"),
    }
}
