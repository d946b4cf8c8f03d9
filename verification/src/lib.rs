//! Verified core of the Ralph Loop orchestrator: parsing of OpenSpec
//! changes, prompt generation, loop decisions and TUI navigation state.

pub mod agent;
pub mod app;
pub mod async_cmd;
pub mod checkpoint;
pub mod error;
pub mod ralph;
pub mod ralph_loop;
pub mod session;
pub mod spec;
pub mod text;
pub mod ui;
