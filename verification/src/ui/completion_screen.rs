//! Data of the completion screen, shown when the loop finishes: how far the
//! loop got, why it stopped, and the choice between cleaning up and keeping
//! the ralph branch.

use vstd::prelude::*;

use crate::checkpoint::CompletionOption;
use crate::text::{decimal, decimal_string, push_str};

verus! {

/// Reason why the loop completed.
#[derive(Debug, Clone, PartialEq, Eq)]
pub enum CompletionReason {
    /// All stories completed successfully.
    Success,
    /// Max retries exceeded for a story.
    MaxRetries { story_id: String },
    /// User requested stop via 'q' key.
    UserStop,
}

/// Data for rendering the completion screen.
#[derive(Debug, Clone)]
pub struct CompletionData {
    /// Number of stories that were completed.
    pub stories_completed: usize,
    /// Total number of stories.
    pub stories_total: usize,
    /// Name of the original branch to return to (for cleanup option).
    pub original_branch: String,
    /// Name of the Ralph branch (ralph/{change}).
    pub ralph_branch: String,
    /// Currently selected option (0 = Cleanup, 1 = Keep).
    pub selected_option: usize,
    /// Whether an operation is in progress.
    pub in_progress: bool,
    /// Progress message to display during operation.
    pub progress_message: Option<String>,
    /// Reason for completion (success, max retries, user stop).
    pub completion_reason: CompletionReason,
}

impl Default for CompletionData {
    fn default() -> (d: Self)
        ensures
            d.stories_completed == 0,
            d.stories_total == 0,
            d.original_branch@ == "main"@,
            d.ralph_branch@ == "ralph/change"@,
            d.selected_option == 0,
            !d.in_progress,
            d.progress_message is None,
            d.completion_reason is Success,
    {
        CompletionData {
            stories_completed: 0,
            stories_total: 0,
            original_branch: "main".to_owned(),
            ralph_branch: "ralph/change".to_owned(),
            selected_option: 0,
            in_progress: false,
            progress_message: None,
            completion_reason: CompletionReason::Success,
        }
    }
}

impl CompletionData {
    /// Returns the currently selected option: cleanup for the first, keep
    /// for any other.
    pub fn selected_completion_option(&self) -> (o: CompletionOption)
        ensures
            o == if self.selected_option == 0 {
                CompletionOption::Cleanup
            } else {
                CompletionOption::Keep
            },
    {
        if self.selected_option == 0 {
            CompletionOption::Cleanup
        } else {
            CompletionOption::Keep
        }
    }

    /// Selects the cleanup option.
    pub fn select_cleanup(&mut self)
        ensures
            final(self).selected_option == 0,
            final(self).in_progress == old(self).in_progress,
    {
        self.selected_option = 0;
    }

    /// Selects the keep option.
    pub fn select_keep(&mut self)
        ensures
            final(self).selected_option == 1,
            final(self).in_progress == old(self).in_progress,
    {
        self.selected_option = 1;
    }

    /// Toggles between the cleanup and keep options.
    pub fn toggle_option(&mut self)
        requires
            old(self).selected_option <= 1,
        ensures
            final(self).selected_option == 1 - old(self).selected_option,
            final(self).in_progress == old(self).in_progress,
    {
        self.selected_option = 1 - self.selected_option;
    }
}

/// The description of how the loop ended.
pub open spec fn completion_text(data: CompletionData) -> Seq<char> {
    match data.completion_reason {
        CompletionReason::Success => "All "@ + decimal(data.stories_total as nat)
            + " stories completed successfully!"@,
        CompletionReason::MaxRetries { story_id } => "Max retries exceeded for "@ + story_id@
            + ". "@ + decimal(data.stories_completed as nat) + " of "@ + decimal(
            data.stories_total as nat,
        ) + " stories completed."@,
        CompletionReason::UserStop => "Loop stopped. "@ + decimal(data.stories_completed as nat)
            + " of "@ + decimal(data.stories_total as nat) + " stories completed."@,
    }
}

/// Describes how the loop ended.
pub fn completion_description(data: &CompletionData) -> (s: String)
    ensures
        s@ == completion_text(*data),
{
    let mut s = String::new();
    match &data.completion_reason {
        CompletionReason::Success => {
            push_str(&mut s, "All ");
            let t = decimal_string(data.stories_total);
            push_str(&mut s, t.as_str());
            push_str(&mut s, " stories completed successfully!");
        },
        CompletionReason::MaxRetries { story_id } => {
            push_str(&mut s, "Max retries exceeded for ");
            push_str(&mut s, story_id.as_str());
            push_str(&mut s, ". ");
            let c = decimal_string(data.stories_completed);
            push_str(&mut s, c.as_str());
            push_str(&mut s, " of ");
            let t = decimal_string(data.stories_total);
            push_str(&mut s, t.as_str());
            push_str(&mut s, " stories completed.");
        },
        CompletionReason::UserStop => {
            push_str(&mut s, "Loop stopped. ");
            let c = decimal_string(data.stories_completed);
            push_str(&mut s, c.as_str());
            push_str(&mut s, " of ");
            let t = decimal_string(data.stories_total);
            push_str(&mut s, t.as_str());
            push_str(&mut s, " stories completed.");
        },
    }
    s
}

} // verus!
