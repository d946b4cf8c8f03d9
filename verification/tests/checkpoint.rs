use ralphtool::checkpoint::guess_original_branch;
use ralphtool::async_cmd::default_timeout;
use ralphtool::checkpoint::{Checkpoint, CompletionOption};

#[test]
fn checkpoint_with_timeout_sets_change_name() {
    let checkpoint = Checkpoint::with_timeout("test-change", default_timeout());
    assert_eq!(checkpoint.change_name(), "test-change");
}

#[test]
fn branch_name_format() {
    let checkpoint = Checkpoint::with_timeout("my-feature", default_timeout());
    assert_eq!(checkpoint.branch_name(), "ralph/my-feature");
}

#[test]
fn completion_option_enum() {
    // Verify both options exist and are distinct
    assert_ne!(CompletionOption::Cleanup, CompletionOption::Keep);
    assert_eq!(CompletionOption::Cleanup, CompletionOption::Cleanup);
    assert_eq!(CompletionOption::Keep, CompletionOption::Keep);
}

#[test]
fn git_steps_of_each_operation() {
    let mut c = Checkpoint::new("feat");
    let init = c.init_steps();
    assert_eq!(init[0].args, vec!["checkout", "-B", "ralph/feat"]);
    assert_eq!(init[2].cmd, "git commit --allow-empty -m 'initial state'");
    let commit = c.commit_steps("2");
    assert_eq!(commit[1].args, vec!["commit", "--allow-empty", "-m", "checkpoint: 2"]);
    assert_eq!(commit[1].cmd, "git commit -m 'checkpoint: 2'");
    let revert = c.revert_steps();
    assert_eq!(revert[0].cmd, "git reset --hard HEAD");
    assert_eq!(revert[1].args, vec!["clean", "-fd"]);
    assert!(c.cleanup_steps(CompletionOption::Keep).unwrap().is_empty());
    match c.cleanup_steps(CompletionOption::Cleanup) {
        Err(e) => assert_eq!(e.to_string(), "Command 'cleanup' failed: No original branch stored - was init() called?"),
        Ok(_) => panic!("cleanup needs the original branch"),
    }
    c.record_original_branch("main\n");
    assert_eq!(c.original_branch(), Some("main"));
    let cleanup = c.cleanup_steps(CompletionOption::Cleanup).unwrap();
    assert_eq!(cleanup[0].args, vec!["checkout", "main"]);
    assert_eq!(cleanup[1].args, vec!["merge", "--squash", "ralph/feat"]);
    assert_eq!(cleanup[3].cmd, "git branch -D ralph/feat");
}

#[test]
fn with_work_dir_keeps_directory() {
    let c = Checkpoint::with_work_dir("x", "/tmp/repo".to_string());
    assert_eq!(c.work_dir(), Some("/tmp/repo"));
    assert!(c.original_branch().is_none());
}

#[test]
fn guessed_original_branch_is_current_off_ralph_branches() {
    assert_eq!(guess_original_branch("feature/x\n", None, false), Some("feature/x".to_string()));
    assert_eq!(guess_original_branch("main", Some("origin/dev"), true), Some("main".to_string()));
}

#[test]
fn guessed_original_branch_on_ralph_branch_uses_default_ref() {
    assert_eq!(
        guess_original_branch("ralph/my-change\n", Some("origin/develop\n"), true),
        Some("develop".to_string())
    );
    assert_eq!(guess_original_branch("ralph/my-change", Some("upstream/develop"), true), None);
}

#[test]
fn guessed_original_branch_falls_back_to_main_or_master() {
    assert_eq!(guess_original_branch("ralph/c", None, true), Some("main".to_string()));
    assert_eq!(guess_original_branch("ralph/c", None, false), Some("master".to_string()));
}
