//! The Director: a queue of render jobs and the decisions of its terminal UI.
//! Rendering itself is done by the `render` capability, run once per job.

pub mod job;
pub mod queue;
pub mod runner;
pub mod tui;
