use ralphtool::error::Error;
use ralphtool::spec::openspec::{requirement_id_of, step_kind_of};
use ralphtool::text::{decimal_string, join_strings, path_join, trim_str};
use ralphtool::text::str_less;

#[test]
fn error_codes_and_messages() {
    assert_eq!(Error::ChangeNotFound("c".to_string()).code(), "CHANGE_NOT_FOUND");
    assert_eq!(Error::ChangeNotFound("c".to_string()).to_string(), "Change not found: c");
    assert_eq!(
        Error::Command { cmd: "git x".to_string(), stderr: "bad".to_string() }.to_string(),
        "Command 'git x' failed: bad"
    );
    assert_eq!(Error::AgentOutput("o".to_string()).code(), "AGENT_OUTPUT_ERROR");
}

#[test]
fn text_helpers() {
    assert_eq!(trim_str("  a b \t\n"), "a b");
    assert_eq!(decimal_string(0), "0");
    assert_eq!(decimal_string(1234), "1234");
    assert_eq!(join_strings(&vec!["a".to_string(), "b".to_string()], ", "), "a, b");
    assert_eq!(path_join("/a", "b"), "/a/b");
    assert_eq!(path_join("/a/", "b"), "/a/b");
    assert_eq!(path_join("/a", "/b"), "/b");
    assert_eq!(requirement_id_of("User Login"), "user-login");
    assert_eq!(requirement_id_of("Émigré Check!"), "émigré-check");
    let lower: Vec<char> = "- **given** x".chars().collect();
    assert_eq!(step_kind_of(&lower), 0);
    let when: Vec<char> = "- when y".chars().collect();
    assert_eq!(step_kind_of(&when), 1);
}

#[test]
fn text_order_matches_string_order() {
    let words = ["", "a", "ab", "b", "B", "é", "abc", "aa"];
    for x in words {
        for y in words {
            assert_eq!(str_less(x, y), x < y, "{:?} < {:?}", x, y);
        }
    }
}

#[test]
fn error_codes_are_machine_readable() {
    assert_eq!(Error::ChangeNotFound("x".to_string()).code(), "CHANGE_NOT_FOUND");
    assert_eq!(Error::TaskNotFound("1.1".to_string()).code(), "TASK_NOT_FOUND");
    assert_eq!(Error::StoryNotFound("1".to_string()).code(), "STORY_NOT_FOUND");
}

#[test]
fn error_displays_correctly() {
    let err = Error::ChangeNotFound("my-change".to_string());
    assert!(err.to_string().contains("my-change"));
}
