//! Command-line request of the `render` binary and the job it describes.
use vstd::prelude::*;
use vstd::std_specs::convert::FromSpecImpl;
use crate::duration::{parse_duration_secs, Duration};
use crate::encode::EncodeBackend;
use crate::error::{RenderError, RenderErrorView};
use crate::job_spec::{backend_for, duration_result, opt_duration_result, opt_secs, select_backend, JobSpec};
use crate::models::{opt_view, validate_spec, Container, OutputFormat, RenderJob};
use crate::text::str_string;

verus! {

/// Output family on the command line.
#[derive(Debug, Clone, Copy, PartialEq, Eq, Structural)]
pub enum CliFormat {
    Mp4,
    Png,
    Raw,
}

/// Container on the command line.
#[derive(Debug, Clone, Copy, PartialEq, Eq, Structural)]
pub enum CliContainer {
    Mkv,
    Mp4,
}

pub open spec fn cli_format_spec(v: CliFormat) -> OutputFormat {
    match v {
        CliFormat::Mp4 => OutputFormat::Mp4,
        CliFormat::Png => OutputFormat::Png,
        CliFormat::Raw => OutputFormat::Raw,
    }
}

pub open spec fn cli_container_spec(v: CliContainer) -> Container {
    match v {
        CliContainer::Mkv => Container::Mkv,
        CliContainer::Mp4 => Container::Mp4,
    }
}

impl From<CliFormat> for OutputFormat {
    fn from(v: CliFormat) -> (r: OutputFormat) {
        match v {
            CliFormat::Mp4 => OutputFormat::Mp4,
            CliFormat::Png => OutputFormat::Png,
            CliFormat::Raw => OutputFormat::Raw,
        }
    }
}

impl FromSpecImpl<CliFormat> for OutputFormat {
    open spec fn obeys_from_spec() -> bool {
        true
    }

    open spec fn from_spec(v: CliFormat) -> OutputFormat {
        cli_format_spec(v)
    }
}

impl From<CliContainer> for Container {
    fn from(v: CliContainer) -> (r: Container) {
        match v {
            CliContainer::Mkv => Container::Mkv,
            CliContainer::Mp4 => Container::Mp4,
        }
    }
}

impl FromSpecImpl<CliContainer> for Container {
    open spec fn obeys_from_spec() -> bool {
        true
    }

    open spec fn from_spec(v: CliContainer) -> Container {
        cli_container_spec(v)
    }
}

/// The `render` command line (paths as text).
#[derive(Debug, Clone)]
pub struct Args {
    /// JSON job file. When set, the flag fields below are ignored.
    pub job_file: Option<String>,
    /// Effect name (allowlisted saver basename, e.g. ripple).
    pub effect: Option<String>,
    /// Explicit path to the plugin `.so` (skips discovery).
    pub plugin_path: Option<String>,
    /// RNG seed.
    pub seed: u64,
    /// Output timeline fps.
    pub fps: u32,
    /// Duration: 10s, 5m, 2h, 1d (or bare seconds).
    pub duration: String,
    /// Optional segment length for long encodes.
    pub segment: Option<String>,
    /// Optional audio bed (muxed after video).
    pub audio: Option<String>,
    /// Output path. Optional with `dry_run`.
    pub output: Option<String>,
    pub width: u32,
    pub height: u32,
    pub cols: Option<usize>,
    pub rows: Option<usize>,
    /// Validate and print the plan only.
    pub dry_run: bool,
    /// Raw BGRA instead of video (same as the raw format).
    pub raw: bool,
    /// Skip encode for existing non-empty segment parts.
    pub resume: bool,
    /// Quality 0–63 (CRF / CQ).
    pub crf: u8,
    pub preset: Option<String>,
    pub encoder: Option<String>,
    /// Force software encoders only.
    pub no_hw_encode: bool,
    /// Force CPU upscale.
    pub no_gpu_upscale: bool,
    pub format: CliFormat,
    pub container: CliContainer,
    /// Stream raw BGRA + 16-byte header to stdout (same as the raw format).
    pub stdout_raw: bool,
    pub baseline_dir: Option<String>,
    pub update_baselines: bool,
    pub snapshot_last_only: bool,
    pub cpu_raster: bool,
}

/// Message when no effect is given.
pub open spec fn effect_required() -> Seq<char> {
    "--effect required without --job-file"@
}

/// Message when no output is given outside a dry run.
pub open spec fn output_required() -> Seq<char> {
    "--output required without --job-file (unless --dry-run)"@
}

impl Args {
    /// The output path of the flags: as given, or `dry-run.mkv` on a dry run.
    pub open spec fn output_result(self) -> Result<Seq<char>, RenderErrorView> {
        match self.output {
            Some(p) => Ok(p@),
            None => if self.dry_run {
                Ok("dry-run.mkv"@)
            } else {
                Err(RenderErrorView::Job(output_required()))
            },
        }
    }

    /// Output family of the flags: raw when `raw` or `stdout_raw` is set.
    pub open spec fn format_value(self) -> OutputFormat {
        if self.raw || self.stdout_raw {
            OutputFormat::Raw
        } else {
            cli_format_spec(self.format)
        }
    }

    /// The first fault of a flag request.
    pub open spec fn first_error(self) -> Option<RenderErrorView> {
        if self.effect is None {
            Some(RenderErrorView::Job(effect_required()))
        } else if self.output_result() is Err {
            Some(self.output_result()->Err_0)
        } else if duration_result(self.duration@) is Err {
            Some(duration_result(self.duration@)->Err_0)
        } else if opt_duration_result(self.segment) is Err {
            Some(opt_duration_result(self.segment)->Err_0)
        } else {
            validate_spec(self.output_result()->Ok_0, opt_view(self.plugin_path), opt_view(self.audio))
        }
    }

    /// `job` is the flag request with durations parsed.
    pub open spec fn becomes(self, job: RenderJob) -> bool {
        &&& self.effect == Some(job.effect)
        &&& job.plugin_path == self.plugin_path
        &&& job.seed == self.seed
        &&& job.fps == self.fps
        &&& duration_result(self.duration@) == Ok::<nat, RenderErrorView>(job.duration.spec_secs())
        &&& job.width == self.width
        &&& job.height == self.height
        &&& self.output_result() == Ok::<Seq<char>, RenderErrorView>(job.output@)
        &&& job.cols == self.cols
        &&& job.rows == self.rows
        &&& job.dry_run == self.dry_run
        &&& opt_duration_result(self.segment) == Ok::<Option<nat>, RenderErrorView>(opt_secs(job.segment))
        &&& job.audio == self.audio
        &&& job.resume == self.resume
        &&& job.crf == self.crf
        &&& job.preset == self.preset
        &&& job.encoder == self.encoder
        &&& job.prefer_hw == !self.no_hw_encode
        &&& job.gpu_upscale == !self.no_gpu_upscale
        &&& job.format == self.format_value()
        &&& job.container == cli_container_spec(self.container)
        &&& job.baseline_dir == self.baseline_dir
        &&& job.snapshot_last_only == self.snapshot_last_only
        &&& job.update_baselines == self.update_baselines
        &&& job.cpu_raster == self.cpu_raster
    }

    /// Turn the command line into a job and its back end. `loaded` is the parsed
    /// job file, given exactly when `job_file` is; the job then comes from it alone. Raw output
    /// from the command line always streams to stdout.
    pub fn into_job(self, loaded: Option<JobSpec>) -> (r: Result<(RenderJob, EncodeBackend), RenderError>)
        requires
            self.job_file is Some <==> loaded is Some,
        ensures
            loaded matches Some(spec) ==> ({
                &&& r is Ok <==> spec.first_error() is None
                &&& r matches Err(e) ==> spec.first_error() == Some(e@)
                &&& r matches Ok((job, b)) ==> spec.becomes(job) && b == backend_for(
                    job.format,
                    job.container,
                    job.dry_run,
                    spec.raw,
                )
            }),
            loaded is None ==> ({
                &&& r is Ok <==> self.first_error() is None
                &&& r matches Err(e) ==> self.first_error() == Some(e@)
                &&& r matches Ok((job, b)) ==> self.becomes(job) && b == backend_for(
                    job.format,
                    job.container,
                    job.dry_run,
                    true,
                )
            }),
    {
        if let Some(spec) = loaded {
            return spec.into_job();
        }
        let effect = match self.effect {
            Some(e) => e,
            None => {
                return Err(RenderError::Job(str_string("--effect required without --job-file")));
            },
        };
        let output = match self.output {
            Some(p) => p,
            None => if self.dry_run {
                str_string("dry-run.mkv")
            } else {
                return Err(
                    RenderError::Job(
                        str_string("--output required without --job-file (unless --dry-run)"),
                    ),
                );
            },
        };
        let duration = parse_duration_secs(self.duration.as_str())?;
        let segment = match &self.segment {
            Some(s) => Some(parse_duration_secs(s.as_str())?),
            None => None,
        };
        let format: OutputFormat = if self.raw || self.stdout_raw {
            OutputFormat::Raw
        } else {
            self.format.into()
        };
        let job = RenderJob {
            effect,
            plugin_path: self.plugin_path,
            seed: self.seed,
            fps: self.fps,
            duration,
            width: self.width,
            height: self.height,
            output,
            cols: self.cols,
            rows: self.rows,
            dry_run: self.dry_run,
            segment,
            audio: self.audio,
            resume: self.resume,
            crf: self.crf,
            preset: self.preset,
            encoder: self.encoder,
            prefer_hw: !self.no_hw_encode,
            gpu_upscale: !self.no_gpu_upscale,
            format,
            container: self.container.into(),
            baseline_dir: self.baseline_dir,
            snapshot_last_only: self.snapshot_last_only,
            update_baselines: self.update_baselines,
            cpu_raster: self.cpu_raster,
        };
        job.validate()?;
        let backend = select_backend(job.format, job.container, job.dry_run, true);
        Ok((job, backend))
    }
}

} // verus!
