//! The validated render request that the pipeline runs.
use vstd::prelude::*;
use crate::duration::Duration;
use crate::encode::EncodeSettings;
use crate::job_spec::clone_opt;
use crate::error::{RenderError, RenderErrorView};
use crate::paths::{deny_parent_dirs, has_parent_dir, parent_dir_error};

verus! {

/// Output family.
#[derive(Debug, Clone, Copy, PartialEq, Eq, Structural)]
pub enum OutputFormat {
    /// Encoded video.
    Mp4,
    /// One PNG per frame.
    Png,
    /// Raw BGRA frames.
    Raw,
}

/// Container of video output.
#[derive(Debug, Clone, Copy, PartialEq, Eq, Structural)]
pub enum Container {
    /// Matroska (AV1 by default).
    Mkv,
    /// MP4 (H.264 by default).
    Mp4,
}

/// A fully parsed render request. Paths are kept as text.
#[derive(Debug, Clone)]
pub struct RenderJob {
    pub effect: String,
    pub plugin_path: Option<String>,
    pub seed: u64,
    pub fps: u32,
    pub duration: Duration,
    pub width: u32,
    pub height: u32,
    pub output: String,
    pub cols: Option<usize>,
    pub rows: Option<usize>,
    pub dry_run: bool,
    pub segment: Option<Duration>,
    pub audio: Option<String>,
    pub resume: bool,
    pub crf: u8,
    pub preset: Option<String>,
    pub encoder: Option<String>,
    pub prefer_hw: bool,
    pub gpu_upscale: bool,
    pub format: OutputFormat,
    pub container: Container,
    pub baseline_dir: Option<String>,
    pub snapshot_last_only: bool,
    pub update_baselines: bool,
    pub cpu_raster: bool,
}

/// The first path-traversal fault among output, plugin path and audio path.
pub open spec fn validate_spec(
    output: Seq<char>,
    plugin: Option<Seq<char>>,
    audio: Option<Seq<char>>,
) -> Option<RenderErrorView> {
    if has_parent_dir(output) {
        Some(parent_dir_error("output"@))
    } else if plugin matches Some(p) && has_parent_dir(p) {
        Some(parent_dir_error("plugin"@))
    } else if audio matches Some(a) && has_parent_dir(a) {
        Some(parent_dir_error("audio"@))
    } else {
        None
    }
}

pub open spec fn opt_view(o: Option<String>) -> Option<Seq<char>> {
    match o {
        Some(s) => Some(s@),
        None => None,
    }
}

/// Frames in `secs` seconds at `fps`: at least one, saturating at `u64::MAX`.
pub open spec fn frames_spec(secs: nat, fps: nat) -> nat {
    let n = secs * fps;
    if n == 0 {
        1
    } else if n > u64::MAX {
        u64::MAX as nat
    } else {
        n
    }
}

impl RenderJob {
    /// The fault `validate` reports, if any.
    pub open spec fn validate_spec(&self) -> Option<RenderErrorView> {
        validate_spec(self.output@, opt_view(self.plugin_path), opt_view(self.audio))
    }

    /// Rejects `..` components in the output, plugin and audio paths.
    pub fn validate(&self) -> (r: Result<(), RenderError>)
        ensures
            r is Ok <==> self.validate_spec() is None,
            r matches Err(e) ==> self.validate_spec() == Some(e@),
    {
        deny_parent_dirs(self.output.as_str(), "output")?;
        if let Some(p) = &self.plugin_path {
            deny_parent_dirs(p.as_str(), "plugin")?;
        }
        if let Some(a) = &self.audio {
            deny_parent_dirs(a.as_str(), "audio")?;
        }
        Ok(())
    }

    /// The encoder knobs of the job: its quality, preset, forced encoder and
    /// hardware preference.
    pub fn encode_settings(&self) -> (s: EncodeSettings)
        ensures
            s == (EncodeSettings {
                crf: self.crf,
                preset: self.preset,
                encoder: self.encoder,
                prefer_hw: self.prefer_hw,
            }),
    {
        EncodeSettings {
            crf: self.crf,
            preset: clone_opt(&self.preset),
            encoder: clone_opt(&self.encoder),
            prefer_hw: self.prefer_hw,
        }
    }

    /// Frames the job renders: `duration * fps`, at least one.
    pub fn frame_count(&self) -> (n: u64)
        ensures
            n == frames_spec(self.duration.spec_secs(), self.fps as nat),
    {
        frames_for_duration(self.duration, self.fps)
    }
}

/// Frames in `duration` at `fps`: at least one, saturating at `u64::MAX`.
pub fn frames_for_duration(duration: Duration, fps: u32) -> (n: u64)
    ensures
        n == frames_spec(duration.spec_secs(), fps as nat),
{
    match duration.as_secs().checked_mul(fps as u64) {
        Some(0) => 1,
        Some(n) => n,
        None => u64::MAX,
    }
}

} // verus!
