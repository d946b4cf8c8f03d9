//! Checkpoints on a dedicated `ralph/{change_name}` branch.
//!
//! At loop start the current branch is remembered and a `ralph/{change}`
//! branch is created with an "initial state" commit; each completed story
//! is committed as a checkpoint; a failed attempt is reverted with
//! `git reset --hard HEAD` and `git clean -fd`; at the end the work is
//! either brought back to the original branch as uncommitted changes, or
//! kept on the ralph branch. This module decides which git commands each
//! operation runs, and what is reported when one fails; running them
//! happens around it.

use vstd::prelude::*;

use crate::async_cmd::{command_line, default_timeout, secs_duration, DEFAULT_TIMEOUT_SECS};
use crate::error::Error;
use crate::text::{
    add_line, add_section, chars_of, concat2, concat3, starts_with, starts_with_chars, string_of,
    join, strip_prefix, strip_prefix_chars, strs, trim, trim_str,
};

use core::time::Duration;

verus! {

/// Option for handling completion when the loop finishes.
#[derive(Debug, Clone, Copy, PartialEq, Eq, Structural)]
pub enum CompletionOption {
    /// Cleanup: return to original branch with uncommitted changes.
    Cleanup,
    /// Keep: stay on the ralph branch with checkpoint commits.
    Keep,
}

/// Checkpoint manager using branch + commit for state preservation.
#[derive(Debug)]
pub struct Checkpoint {
    /// The name of the change being worked on.
    change_name: String,
    /// Optional working directory for git commands.
    work_dir: Option<String>,
    /// Timeout for git commands.
    timeout: Duration,
    /// The original branch name before switching to the ralph branch.
    original_branch: Option<String>,
}

/// Abstract value of a [`Checkpoint`].
pub struct CheckpointView {
    pub change_name: Seq<char>,
    pub work_dir: Option<Seq<char>>,
    pub timeout: Duration,
    pub original_branch: Option<Seq<char>>,
}

impl View for Checkpoint {
    type V = CheckpointView;

    closed spec fn view(&self) -> CheckpointView {
        CheckpointView {
            change_name: self.change_name@,
            work_dir: match self.work_dir {
                Some(d) => Some(d@),
                None => None,
            },
            timeout: self.timeout,
            original_branch: match self.original_branch {
                Some(b) => Some(b@),
                None => None,
            },
        }
    }
}

/// A git command to run: its arguments, and the command as it is reported
/// when it fails.
#[derive(Debug, Clone)]
pub struct GitStep {
    /// Arguments passed to `git`.
    pub args: Vec<String>,
    /// The command as named in a failure report.
    pub cmd: String,
}

/// Abstract value of a [`GitStep`].
pub struct GitStepView {
    pub args: Seq<Seq<char>>,
    pub cmd: Seq<char>,
}

impl View for GitStep {
    type V = GitStepView;

    open spec fn view(&self) -> GitStepView {
        GitStepView { args: strs(self.args@), cmd: self.cmd@ }
    }
}

/// The views of a sequence of git steps.
pub open spec fn steps_view(v: Seq<GitStep>) -> Seq<GitStepView> {
    v.map_values(|s: GitStep| s@)
}

/// A git step from its arguments and reported command.
pub open spec fn step(args: Seq<Seq<char>>, cmd: Seq<char>) -> GitStepView {
    GitStepView { args, cmd }
}

/// The ralph branch of a change: `ralph/{change_name}`.
pub open spec fn branch_of(change_name: Seq<char>) -> Seq<char> {
    "ralph/"@ + change_name
}

/// The steps that start the checkpoint system after the current branch is
/// known: switch to (recreating) the ralph branch, stage everything, and
/// commit the initial state.
pub open spec fn init_steps_of(change_name: Seq<char>) -> Seq<GitStepView> {
    let b = branch_of(change_name);
    seq![
        step(seq!["checkout"@, "-B"@, b], "git checkout -B "@ + b),
        step(seq!["add"@, "-A"@], "git add -A"@),
        step(
            seq!["commit"@, "--allow-empty"@, "-m"@, "initial state"@],
            "git commit --allow-empty -m 'initial state'"@,
        ),
    ]
}

/// The steps that commit a checkpoint after a story completes.
pub open spec fn commit_steps_of(story_id: Seq<char>) -> Seq<GitStepView> {
    let message = "checkpoint: "@ + story_id;
    seq![
        step(seq!["add"@, "-A"@], "git add -A"@),
        step(
            seq!["commit"@, "--allow-empty"@, "-m"@, message],
            "git commit -m '"@ + message + "'"@,
        ),
    ]
}

/// The steps that revert to the last checkpoint.
pub open spec fn revert_steps_of() -> Seq<GitStepView> {
    seq![
        step(seq!["reset"@, "--hard"@, "HEAD"@], "git reset --hard HEAD"@),
        step(seq!["clean"@, "-fd"@], "git clean -fd"@),
    ]
}

/// The steps that bring the work back to the original branch as
/// uncommitted changes and delete the ralph branch.
pub open spec fn cleanup_steps_of(original: Seq<char>, change_name: Seq<char>) -> Seq<GitStepView> {
    let b = branch_of(change_name);
    seq![
        step(seq!["checkout"@, original], "git checkout "@ + original),
        step(seq!["merge"@, "--squash"@, b], "git merge --squash "@ + b),
        step(seq!["reset"@, "HEAD"@], "git reset HEAD"@),
        step(seq!["branch"@, "-D"@, b], "git branch -D "@ + b),
    ]
}

fn git_step(args: Vec<String>, cmd: String) -> (s: GitStep)
    ensures
        s@ == step(strs(args@), cmd@),
{
    GitStep { args, cmd }
}

fn push_step(v: &mut Vec<GitStep>, s: GitStep)
    ensures
        steps_view(final(v)@) == steps_view(old(v)@).push(s@),
{
    let ghost prev = v@;
    let ghost sv = s@;
    v.push(s);
    assert(steps_view(v@) =~= steps_view(prev).push(sv));
}

fn args2(a: &str, b: &str) -> (v: Vec<String>)
    ensures
        strs(v@) == seq![a@, b@],
{
    let mut v: Vec<String> = Vec::new();
    add_line(&mut v, a);
    add_line(&mut v, b);
    v
}

fn args3(a: &str, b: &str, c: &str) -> (v: Vec<String>)
    ensures
        strs(v@) == seq![a@, b@, c@],
{
    let mut v = args2(a, b);
    add_line(&mut v, c);
    v
}

fn args4(a: &str, b: &str, c: &str, d: &str) -> (v: Vec<String>)
    ensures
        strs(v@) == seq![a@, b@, c@, d@],
{
    let mut v = args3(a, b, c);
    add_line(&mut v, d);
    v
}

impl Checkpoint {
    /// Creates a new Checkpoint with the default timeout.
    pub fn new(change_name: &str) -> (c: Self)
        ensures
            c@.change_name == change_name@,
            c@.work_dir is None,
            c@.timeout == secs_duration(DEFAULT_TIMEOUT_SECS),
            c@.original_branch is None,
    {
        Self::with_timeout(change_name, default_timeout())
    }

    /// Creates a new Checkpoint with a custom timeout.
    pub fn with_timeout(change_name: &str, timeout: Duration) -> (c: Self)
        ensures
            c@.change_name == change_name@,
            c@.work_dir is None,
            c@.timeout == timeout,
            c@.original_branch is None,
    {
        Checkpoint {
            change_name: change_name.to_owned(),
            work_dir: None,
            timeout,
            original_branch: None,
        }
    }

    /// Creates a new Checkpoint whose git commands run in a specific
    /// working directory.
    pub fn with_work_dir(change_name: &str, work_dir: String) -> (c: Self)
        ensures
            c@.change_name == change_name@,
            c@.work_dir == Some(work_dir@),
            c@.timeout == secs_duration(DEFAULT_TIMEOUT_SECS),
            c@.original_branch is None,
    {
        Checkpoint {
            change_name: change_name.to_owned(),
            work_dir: Some(work_dir),
            timeout: default_timeout(),
            original_branch: None,
        }
    }

    /// The name of the change.
    pub fn change_name(&self) -> (n: &str)
        ensures
            n@ == self@.change_name,
    {
        self.change_name.as_str()
    }

    /// The working directory of the git commands, if one is set.
    pub fn work_dir(&self) -> (d: Option<&str>)
        ensures
            match d {
                Some(s) => self@.work_dir == Some(s@),
                None => self@.work_dir is None,
            },
    {
        match &self.work_dir {
            Some(d) => Some(d.as_str()),
            None => None,
        }
    }

    /// The timeout of the git commands.
    pub fn timeout(&self) -> (t: Duration)
        ensures
            t == self@.timeout,
    {
        self.timeout
    }

    /// Returns the name of the ralph branch for this change.
    pub fn branch_name(&self) -> (b: String)
        ensures
            b@ == branch_of(self@.change_name),
    {
        concat2("ralph/", self.change_name.as_str())
    }

    /// Returns the original branch name, if available.
    pub fn original_branch(&self) -> (b: Option<&str>)
        ensures
            match b {
                Some(s) => self@.original_branch == Some(s@),
                None => self@.original_branch is None,
            },
    {
        match &self.original_branch {
            Some(b) => Some(b.as_str()),
            None => None,
        }
    }

    /// The step that asks git for the current branch, at the start of init.
    pub fn current_branch_step() -> (s: GitStep)
        ensures
            s@ == step(seq!["rev-parse"@, "--abbrev-ref"@, "HEAD"@], "git rev-parse --abbrev-ref HEAD"@),
    {
        git_step(args3("rev-parse", "--abbrev-ref", "HEAD"), "git rev-parse --abbrev-ref HEAD".to_owned())
    }

    /// Remembers the original branch from the output of the current-branch
    /// step (trimmed).
    pub fn record_original_branch(&mut self, stdout: &str)
        ensures
            final(self)@ == (CheckpointView { original_branch: Some(trim(stdout@)), ..old(self)@ }),
    {
        self.original_branch = Some(trim_str(stdout));
    }

    /// The steps of init that follow the current-branch step.
    pub fn init_steps(&self) -> (v: Vec<GitStep>)
        ensures
            steps_view(v@) == init_steps_of(self@.change_name),
    {
        let b = self.branch_name();
        let mut v: Vec<GitStep> = Vec::new();
        push_step(&mut v, git_step(args3("checkout", "-B", b.as_str()), concat2("git checkout -B ", b.as_str())));
        push_step(&mut v, git_step(args2("add", "-A"), "git add -A".to_owned()));
        push_step(
            &mut v,
            git_step(
                args4("commit", "--allow-empty", "-m", "initial state"),
                "git commit --allow-empty -m 'initial state'".to_owned(),
            ),
        );
        assert(steps_view(v@) =~= init_steps_of(self@.change_name));
        v
    }

    /// The steps that commit a checkpoint with message
    /// `checkpoint: {story_id}`.
    pub fn commit_steps(&self, story_id: &str) -> (v: Vec<GitStep>)
        ensures
            steps_view(v@) == commit_steps_of(story_id@),
    {
        let message = concat2("checkpoint: ", story_id);
        let mut v: Vec<GitStep> = Vec::new();
        push_step(&mut v, git_step(args2("add", "-A"), "git add -A".to_owned()));
        push_step(
            &mut v,
            git_step(
                args4("commit", "--allow-empty", "-m", message.as_str()),
                concat3("git commit -m '", message.as_str(), "'"),
            ),
        );
        assert(steps_view(v@) =~= commit_steps_of(story_id@));
        v
    }

    /// The steps that revert to the last checkpoint.
    pub fn revert_steps(&self) -> (v: Vec<GitStep>)
        ensures
            steps_view(v@) == revert_steps_of(),
    {
        let mut v: Vec<GitStep> = Vec::new();
        push_step(&mut v, git_step(args3("reset", "--hard", "HEAD"), "git reset --hard HEAD".to_owned()));
        push_step(&mut v, git_step(args2("clean", "-fd"), "git clean -fd".to_owned()));
        assert(steps_view(v@) =~= revert_steps_of());
        v
    }

    /// The steps that handle completion by the user's choice: none to keep
    /// the ralph branch; to clean up, those that return to the original
    /// branch, which must have been recorded by init.
    pub fn cleanup_steps(&self, option: CompletionOption) -> (r: Result<Vec<GitStep>, Error>)
        ensures
            match option {
                CompletionOption::Keep => r matches Ok(v) && v@.len() == 0,
                CompletionOption::Cleanup => match self@.original_branch {
                    Some(orig) => r matches Ok(v) && steps_view(v@) == cleanup_steps_of(
                        orig,
                        self@.change_name,
                    ),
                    None => r matches Err(Error::Command { cmd, stderr }) && cmd@ == "cleanup"@
                        && stderr@ == "No original branch stored - was init() called?"@,
                },
            },
    {
        match option {
            CompletionOption::Keep => Ok(Vec::new()),
            CompletionOption::Cleanup => match &self.original_branch {
                None => Err(
                    Error::Command {
                        cmd: "cleanup".to_owned(),
                        stderr: "No original branch stored - was init() called?".to_owned(),
                    },
                ),
                Some(orig) => {
                    let b = self.branch_name();
                    let mut v: Vec<GitStep> = Vec::new();
                    push_step(
                        &mut v,
                        git_step(args2("checkout", orig.as_str()), concat2("git checkout ", orig.as_str())),
                    );
                    push_step(
                        &mut v,
                        git_step(
                            args3("merge", "--squash", b.as_str()),
                            concat2("git merge --squash ", b.as_str()),
                        ),
                    );
                    push_step(&mut v, git_step(args2("reset", "HEAD"), "git reset HEAD".to_owned()));
                    push_step(
                        &mut v,
                        git_step(args3("branch", "-D", b.as_str()), concat2("git branch -D ", b.as_str())),
                    );
                    assert(steps_view(v@) =~= cleanup_steps_of(orig@, self@.change_name));
                    Ok(v)
                },
            },
        }
    }

    /// The error reported when a step fails with the given standard error.
    pub fn step_error(s: &GitStep, stderr: String) -> (e: Error)
        ensures
            e matches Error::Command { cmd, stderr: err } && cmd@ == s.cmd@ && err@ == stderr@,
    {
        Error::Command { cmd: s.cmd.clone(), stderr }
    }
}

/// The original branch as git shows it when none was recorded: the current
/// branch (trimmed) unless it is a ralph branch; on a ralph branch, the
/// remote's default branch (trimmed) without its `origin/`, and none when
/// it lacks that prefix; when git names no default branch, `main` where it
/// exists, else `master`.
pub open spec fn guessed_original_branch(
    current: Seq<char>,
    default_ref: Option<Seq<char>>,
    main_exists: bool,
) -> Option<Seq<char>> {
    let cur = trim(current);
    if starts_with(cur, "ralph/"@) {
        match default_ref {
            Some(d) => strip_prefix(trim(d), "origin/"@),
            None => if main_exists {
                Some("main"@)
            } else {
                Some("master"@)
            },
        }
    } else {
        Some(cur)
    }
}

/// Guesses the original branch from the output of `git rev-parse
/// --abbrev-ref HEAD`, the output of `git symbolic-ref
/// refs/remotes/origin/HEAD --short` where that command succeeded, and
/// whether a `main` branch exists.
pub fn guess_original_branch(current: &str, default_ref: Option<&str>, main_exists: bool) -> (r:
    Option<String>)
    ensures
        match r {
            Some(b) => guessed_original_branch(current@, opt_view(default_ref), main_exists) == Some(
                b@,
            ),
            None => guessed_original_branch(current@, opt_view(default_ref), main_exists) is None,
        },
{
    let cur = trim_str(current);
    let cv = chars_of(cur.as_str());
    let ralph = chars_of("ralph/");
    proof {
        reveal_strlit("ralph/");
    }
    if starts_with_chars(&cv, &ralph) {
        match default_ref {
            Some(d) => {
                let dv = chars_of(trim_str(d).as_str());
                let origin = chars_of("origin/");
                proof {
                    reveal_strlit("origin/");
                }
                match strip_prefix_chars(&dv, &origin) {
                    Some(rest) => Some(string_of(&rest)),
                    None => None,
                }
            },
            None => {
                if main_exists {
                    Some("main".to_owned())
                } else {
                    Some("master".to_owned())
                }
            },
        }
    } else {
        Some(cur)
    }
}

/// A string slice option by its view.
pub open spec fn opt_view(o: Option<&str>) -> Option<Seq<char>> {
    match o {
        Some(s) => Some(s@),
        None => None,
    }
}

proof fn lemma_join2(a: Seq<char>, b: Seq<char>)
    ensures
        join(seq![a, b], " "@) == a + " "@ + b,
{
    assert(seq![a, b].drop_last() =~= seq![a]);
    assert(join(seq![a], " "@) == a);
    assert(seq![a, b].last() == b);
}

proof fn lemma_join3(a: Seq<char>, b: Seq<char>, c: Seq<char>)
    ensures
        join(seq![a, b, c], " "@) == a + " "@ + b + " "@ + c,
{
    assert(seq![a, b, c].drop_last() =~= seq![a, b]);
    lemma_join2(a, b);
}

/// A revert throws away everything done since the last checkpoint: it
/// resets tracked files hard to HEAD, then removes untracked files and
/// directories; each step reports exactly the git command it runs.
pub proof fn law_revert_discards_all_changes()
    ensures
        revert_steps_of().len() == 2,
        revert_steps_of()[0].args == seq!["reset"@, "--hard"@, "HEAD"@],
        revert_steps_of()[1].args == seq!["clean"@, "-fd"@],
        forall|i: int| 0 <= i < revert_steps_of().len() ==> #[trigger] revert_steps_of()[i].cmd
            == command_line("git"@, revert_steps_of()[i].args),
{
    reveal_strlit("git reset --hard HEAD");
    reveal_strlit("git clean -fd");
    reveal_strlit("git");
    reveal_strlit("reset");
    reveal_strlit("--hard");
    reveal_strlit("HEAD");
    reveal_strlit("clean");
    reveal_strlit("-fd");
    reveal_strlit(" ");
    lemma_join3("reset"@, "--hard"@, "HEAD"@);
    lemma_join2("clean"@, "-fd"@);
    assert(revert_steps_of()[0].cmd =~= command_line("git"@, revert_steps_of()[0].args));
    assert(revert_steps_of()[1].cmd =~= command_line("git"@, revert_steps_of()[1].args));
}

/// A checkpoint takes in every change of the story: it first stages all
/// changes, new untracked files included (`git add -A`, as reported), then
/// commits with the message `checkpoint: {story_id}`, which its report names.
pub proof fn law_checkpoint_stages_all_changes(story_id: Seq<char>)
    ensures
        commit_steps_of(story_id).len() == 2,
        commit_steps_of(story_id)[0].args == seq!["add"@, "-A"@],
        commit_steps_of(story_id)[0].cmd == command_line("git"@, commit_steps_of(story_id)[0].args),
        commit_steps_of(story_id)[1].args == seq![
            "commit"@,
            "--allow-empty"@,
            "-m"@,
            "checkpoint: "@ + story_id,
        ],
        commit_steps_of(story_id)[1].cmd == "git commit -m '"@ + commit_steps_of(story_id)[1].args[3] + "'"@,
{
    reveal_strlit("git add -A");
    reveal_strlit("git");
    reveal_strlit("add");
    reveal_strlit("-A");
    reveal_strlit(" ");
    lemma_join2("add"@, "-A"@);
    assert(commit_steps_of(story_id)[0].cmd =~= command_line("git"@, commit_steps_of(story_id)[0].args));
}

/// Every operation that changes the repository works on the ralph branch
/// of the change, and cleanup deletes exactly that branch: the branch that
/// init switches to is the one that cleanup merges and deletes.
pub proof fn law_cleanup_removes_init_branch(original: Seq<char>, change_name: Seq<char>)
    ensures
        init_steps_of(change_name)[0].args[2] == branch_of(change_name),
        cleanup_steps_of(original, change_name)[1].args[2] == branch_of(change_name),
        cleanup_steps_of(original, change_name)[3].args[2] == branch_of(change_name),
        cleanup_steps_of(original, change_name)[0].args[1] == original,
{
}

} // verus!
