use ralphtool::ralph_loop::learnings::{learnings_content, learnings_path, INITIAL_TEMPLATE};

#[test]
fn learnings_path_follows_convention() {
    let path = learnings_path("add-user-auth");
    assert_eq!(path, "/tmp/ralphtool/add-user-auth-learnings.md");
}

#[test]
fn learnings_path_handles_hyphenated_names() {
    let path = learnings_path("my-complex-feature-name");
    assert_eq!(path, "/tmp/ralphtool/my-complex-feature-name-learnings.md");
}

#[test]
fn learnings_path_handles_simple_names() {
    let path = learnings_path("feature");
    assert_eq!(path, "/tmp/ralphtool/feature-learnings.md");
}

#[test]
fn initial_template_contains_guidance() {
    assert!(INITIAL_TEMPLATE.contains("Shared Learnings"));
    assert!(INITIAL_TEMPLATE.contains("discoveries"));
    assert!(INITIAL_TEMPLATE.contains("decisions"));
    assert!(INITIAL_TEMPLATE.contains("gotchas"));
}

#[test]
fn template_only_has_no_learnings() {
    assert_eq!(learnings_content(INITIAL_TEMPLATE), None);
    let padded = format!("{}   \n\n", INITIAL_TEMPLATE);
    assert_eq!(learnings_content(&padded), None);
    assert_eq!(learnings_content(""), None);
}

#[test]
fn content_beyond_template_is_returned_whole() {
    let content = format!("{}- found X\n", INITIAL_TEMPLATE);
    assert_eq!(learnings_content(&content), Some(content.clone()));
    assert_eq!(learnings_content("notes"), Some("notes".to_string()));
}
