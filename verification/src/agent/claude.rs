//! Agent backed by a coding-agent command-line tool: the command line with
//! which it is run.

use vstd::prelude::*;

use crate::agent::Prompt;
use crate::text::{add_line, add_section, strs};

verus! {

/// Agent that invokes the coding-agent CLI with `-p` (prompt) and
/// `--output-format stream-json` to get streaming NDJSON output.
#[derive(Debug, Default)]
pub struct ClaudeAgent;

impl ClaudeAgent {
    /// Create a new agent backed by the coding-agent CLI.
    pub fn new() -> (a: Self)
        ensures
            a == ClaudeAgent,
    {
        ClaudeAgent
    }
}

/// The arguments of the coding-agent CLI for a prompt: the user prompt in print
/// mode with streaming JSON output and skipped permission prompts, and the
/// system prompt appended only when it is not empty.
pub open spec fn claude_args(system: Seq<char>, user: Seq<char>) -> Seq<Seq<char>> {
    let base = seq![
        "-p"@,
        user,
        "--output-format"@,
        "stream-json"@,
        "--verbose"@,
        "--dangerously-skip-permissions"@,
    ];
    if system.len() > 0 {
        base + seq!["--append-system-prompt"@, system]
    } else {
        base
    }
}

/// Build the command-line arguments for the coding-agent CLI.
pub fn build_command_args(prompt: &Prompt) -> (args: Vec<String>)
    ensures
        strs(args@) == claude_args(prompt.system@, prompt.user@),
{
    let mut args: Vec<String> = Vec::new();
    add_line(&mut args, "-p");
    add_section(&mut args, prompt.user.clone());
    add_line(&mut args, "--output-format");
    add_line(&mut args, "stream-json");
    add_line(&mut args, "--verbose");
    add_line(&mut args, "--dangerously-skip-permissions");
    if !prompt.system.as_str().is_empty() {
        add_line(&mut args, "--append-system-prompt");
        add_section(&mut args, prompt.system.clone());
    }
    assert(strs(args@) =~= claude_args(prompt.system@, prompt.user@));
    args
}

} // verus!

verus! {

/// One line of the agent's streaming output, once parsed.
pub enum StreamLine {
    /// A system line.
    System,
    /// An assistant message: its content blocks, each with its text where it
    /// is a text block.
    Assistant(Vec<Option<String>>),
    /// The final result, with its turn count and token usage.
    Result { result: String, num_turns: u32, input_tokens: u32, output_tokens: u32 },
}

/// The event that a line of the agent's stream gives.
pub enum LineEvent {
    /// An intermediate message.
    Message(String),
    /// The final result: its text, turns, and tokens in and out together.
    Done { content: String, turns: u32, tokens: u32 },
}

/// The text of the first text block, if any.
pub open spec fn first_text(blocks: Seq<Option<String>>) -> Option<Seq<char>>
    decreases blocks.len(),
{
    if blocks.len() == 0 {
        None
    } else {
        match blocks[0] {
            Some(t) => Some(t@),
            None => first_text(blocks.drop_first()),
        }
    }
}

/// The sum of two token counts, saturated at the largest `u32`.
pub open spec fn token_total(a: u32, b: u32) -> u32 {
    if a + b > u32::MAX {
        u32::MAX
    } else {
        (a + b) as u32
    }
}

/// The text of the first text block, if any.
fn first_text_block(blocks: &Vec<Option<String>>) -> (r: Option<String>)
    ensures
        match first_text(blocks@) {
            Some(t) => r matches Some(m) && m@ == t,
            None => r is None,
        },
{
    let mut i: usize = 0;
    assert(blocks@.subrange(0, blocks@.len() as int) =~= blocks@);
    while i < blocks.len()
        invariant
            i <= blocks@.len(),
            first_text(blocks@) == first_text(blocks@.subrange(i as int, blocks@.len() as int)),
        decreases blocks@.len() - i,
    {
        let ghost rest = blocks@.subrange(i as int, blocks@.len() as int);
        assert(rest[0] == blocks@[i as int]);
        match &blocks[i] {
            Some(t) => {
                return Some(t.clone());
            },
            None => {
                assert(rest.drop_first() =~= blocks@.subrange(i + 1, blocks@.len() as int));
            },
        }
        i += 1;
    }
    assert(blocks@.subrange(i as int, blocks@.len() as int).len() == 0);
    None
}

/// The event of a parsed line: none for a system line; for an assistant
/// message, its first text block, if it has one; for the final result, its
/// text, its turns, and its input and output tokens added up.
pub fn line_event(line: StreamLine) -> (e: Option<LineEvent>)
    ensures
        match line {
            StreamLine::System => e is None,
            StreamLine::Assistant(blocks) => match first_text(blocks@) {
                Some(t) => e matches Some(LineEvent::Message(m)) && m@ == t,
                None => e is None,
            },
            StreamLine::Result { result, num_turns, input_tokens, output_tokens } => e matches Some(
                LineEvent::Done { content, turns, tokens },
            ) && content@ == result@ && turns == num_turns && tokens == token_total(
                input_tokens,
                output_tokens,
            ),
        },
{
    match line {
        StreamLine::System => None,
        StreamLine::Assistant(blocks) => match first_text_block(&blocks) {
            Some(t) => Some(LineEvent::Message(t)),
            None => None,
        },
        StreamLine::Result { result, num_turns, input_tokens, output_tokens } => {
            let tokens = match input_tokens.checked_add(output_tokens) {
                Some(t) => t,
                None => u32::MAX,
            };
            Some(LineEvent::Done { content: result, turns: num_turns, tokens })
        },
    }
}

} // verus!
