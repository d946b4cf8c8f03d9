//! Learnings file conventions for cross-story knowledge sharing.
//!
//! A shared learnings file persists across stories within an iteration and
//! across iteration runs. Here live its location, its initial template and
//! the decision whether its content says more than the template.

use vstd::prelude::*;

use crate::text::{chars_of, starts_with, starts_with_chars, strip_prefix, strip_prefix_chars, trim, trim_chars, concat3, concat2};

verus! {

/// Initial template content for new learnings files.
///
/// It tells agents what to record; content detection looks for text beyond it.
pub const INITIAL_TEMPLATE: &'static str = "<!-- Shared Learnings File -->\n<!-- Record discoveries, decisions, and gotchas here for future stories -->\n\n";

/// Directory that holds the learnings files.
pub const LEARNINGS_DIR: &'static str = "/tmp/ralphtool";

/// The path of the learnings file of a change:
/// `/tmp/ralphtool/{change_name}-learnings.md`. As with `Path::join`, a file
/// name that is itself absolute replaces the directory.
pub open spec fn learnings_path_of(change_name: Seq<char>) -> Seq<char> {
    let file = change_name + "-learnings.md"@;
    if starts_with(file, "/"@) {
        file
    } else {
        LEARNINGS_DIR@ + "/"@ + file
    }
}

/// Returns the path to the learnings file for a given change.
pub fn learnings_path(change_name: &str) -> (p: String)
    ensures
        p@ == learnings_path_of(change_name@),
{
    let file = concat2(change_name, "-learnings.md");
    let v = chars_of(file.as_str());
    let slash = chars_of("/");
    proof {
        reveal_strlit("/");
    }
    if starts_with_chars(&v, &slash) {
        file
    } else {
        concat3(LEARNINGS_DIR, "/", file.as_str())
    }
}

/// The learnings worth showing from a file's content: the whole content when
/// something other than whitespace follows the initial template (or, if the
/// content does not start with the template, when the content itself is not
/// blank); nothing otherwise.
pub open spec fn meaningful_learnings(content: Seq<char>) -> Option<Seq<char>> {
    let rest = match strip_prefix(content, INITIAL_TEMPLATE@) {
        Some(r) => r,
        None => content,
    };
    if trim(rest).len() == 0 {
        None
    } else {
        Some(content)
    }
}

/// Decides whether the content of a learnings file is worth including:
/// returns the full content (template included, as it gives context) when
/// it has text beyond the initial template.
pub fn learnings_content(content: &str) -> (r: Option<String>)
    ensures
        match r {
            Some(s) => meaningful_learnings(content@) == Some(s@),
            None => meaningful_learnings(content@) is None,
        },
{
    let v = chars_of(content);
    let t = chars_of(INITIAL_TEMPLATE);
    let rest = match strip_prefix_chars(&v, &t) {
        Some(r) => r,
        None => v,
    };
    let trimmed = trim_chars(&rest);
    if trimmed.len() == 0 {
        None
    } else {
        Some(content.to_owned())
    }
}

} // verus!
