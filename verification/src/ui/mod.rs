//! Data shown by the screens of the TUI once the loop has finished.

pub mod completion_screen;
pub mod result_screen;
pub mod view;

pub use completion_screen::{CompletionData, CompletionReason};
pub use result_screen::LoopResult;
