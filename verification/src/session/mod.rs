//! Instructions for agents working on a story.

pub mod instructions;
