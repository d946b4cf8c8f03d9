# ralphtool

Ralph Loop: a terminal UI that runs a coding agent story by story over a
completed OpenSpec change, checkpointing each story on a `ralph/<change>`
git branch, plus the `ralphtool agent ...` commands that the agent calls
back into (session, context, task completion, status, learnings).

## Layout

- `src/` — the verified library (Verus):
  - `spec/`, `ralph/` — parsing of `tasks.md` and the requirements files
    of a change, the adapters over them, and verification commands;
  - `agent/` — prompts for the coding agent and its CLI arguments, and the
    responses of the agent commands (sessions, context, tasks, learnings);
  - `session/` — the per-story instructions document;
  - `ralph_loop/` — the story loop's decisions: which story next, how an
    agent run ended, when to retry and when to give up;
  - `checkpoint/` — which git commands each checkpoint operation runs;
  - `async_cmd.rs` — how a command run ends up as an error or not;
  - `app.rs`, `ui/` — the TUI's state machine and what each screen shows;
  - `text.rs` — string operations with their specifications.
- `app/` — the program around it: argument parsing, terminal drawing,
  threads, files, git, the `openspec` CLI and the agent process.
- `tests/` — tests of the library.
