//! Offline saver export: job contracts, encoder selection, snapshot
//! comparison and the Director queue logic, with verified contracts.
use vstd::prelude::*;

pub mod audio;
pub mod av1;
pub mod cli;
pub mod duration;
pub mod encode;
pub mod error;
pub mod job_spec;
pub mod models;
pub mod paths;
pub mod pipeline_snapshot;
pub mod png_frame;
pub mod snapshot;
pub mod studio;
pub mod text;

pub use duration::{parse_duration_secs, Duration};
pub use error::{RenderError, StudioError};

verus! {
} // verus!
