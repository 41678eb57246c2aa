//! The AV1-only `render` front end: an effect and an output are always given, and
//! frames go either to a raw dump or to an ffmpeg AV1 encoder chosen by name.
use vstd::prelude::*;
use crate::duration::parse_duration_secs;
use crate::encode::{append_exit_code, exit_code_text, size_arg, strs, EncodeSink, opt_text};
use crate::error::{RenderError, RenderErrorView};
use crate::job_spec::{duration_result, opt_duration_result, opt_secs};
use crate::models::{opt_view, validate_spec, Container, OutputFormat, RenderJob};
use crate::text::{
    append_chars, chars_of, contains, contains_exec, decimal, decimal_chars, decimal_string,
    str_string,
};

verus! {

/// Preferred ffmpeg AV1 encoder names, in order.
pub const AV1_CANDIDATES: [&'static str; 3] = ["libsvtav1", "libaom-av1", "librav1e"];

/// Where frames go.
#[derive(Debug, Clone, Copy, PartialEq, Eq, Structural)]
pub enum EncodeBackend {
    /// Pipe BGRA frames to ffmpeg AV1.
    FfmpegAv1,
    /// Write a single raw BGRA dump (tests / no ffmpeg).
    RawDump,
}

/// Quality / speed knobs passed to ffmpeg.
#[derive(Debug, Clone, PartialEq, Eq)]
pub struct EncodeSettings {
    /// Constant rate factor (lower = larger/better). Default 35.
    pub crf: u8,
    /// Encoder preset (e.g. SVT-AV1 `6`–`12`, higher is faster).
    pub preset: Option<String>,
    /// Force a specific ffmpeg encoder name (must be installed).
    pub encoder: Option<String>,
}

impl Default for EncodeSettings {
    fn default() -> (s: Self)
        ensures
            s.crf == 35,
            s.preset is None,
            s.encoder is None,
    {
        EncodeSettings { crf: 35, preset: None, encoder: None }
    }
}

/// The AV1-only command line (paths as text).
#[derive(Debug, Clone)]
pub struct Args {
    /// Effect name (allowlisted saver basename, e.g. beams).
    pub effect: String,
    /// Explicit path to the plugin `.so` (skips discovery).
    pub plugin_path: Option<String>,
    /// RNG seed exported to plugins.
    pub seed: u64,
    /// Output timeline fps.
    pub fps: u32,
    /// Duration: 10s, 5m, 2h, 1d (or bare seconds).
    pub duration: String,
    /// Optional segment length for long encodes.
    pub segment: Option<String>,
    /// Optional audio bed (muxed after video; looped/cut to fit).
    pub audio: Option<String>,
    /// Output path (.mkv recommended).
    pub output: String,
    pub width: u32,
    pub height: u32,
    pub cols: Option<usize>,
    pub rows: Option<usize>,
    /// Validate and print the plan only.
    pub dry_run: bool,
    /// Write a raw BGRA dump instead of AV1.
    pub raw: bool,
    /// Skip encode for existing non-empty segment parts (still advances the simulation).
    pub resume: bool,
    /// AV1 CRF (0–63, lower = better/larger).
    pub crf: u8,
    pub preset: Option<String>,
    pub encoder: Option<String>,
}

impl Args {
    /// The first fault of the request: duration, segment, then the path checks.
    pub open spec fn first_error(self) -> Option<RenderErrorView> {
        if duration_result(self.duration@) is Err {
            Some(duration_result(self.duration@)->Err_0)
        } else if opt_duration_result(self.segment) is Err {
            Some(opt_duration_result(self.segment)->Err_0)
        } else {
            validate_spec(self.output@, opt_view(self.plugin_path), opt_view(self.audio))
        }
    }

    /// `job` is this request with durations parsed; the settings this front end has no
    /// flags for take their defaults (hardware preferred, GPU upscale, mkv video, no
    /// snapshot).
    pub open spec fn becomes(self, job: RenderJob) -> bool {
        &&& job.effect == self.effect
        &&& job.plugin_path == self.plugin_path
        &&& job.seed == self.seed
        &&& job.fps == self.fps
        &&& duration_result(self.duration@) == Ok::<nat, RenderErrorView>(job.duration.spec_secs())
        &&& job.width == self.width
        &&& job.height == self.height
        &&& job.output == self.output
        &&& job.cols == self.cols
        &&& job.rows == self.rows
        &&& job.dry_run == self.dry_run
        &&& opt_duration_result(self.segment) == Ok::<Option<nat>, RenderErrorView>(opt_secs(job.segment))
        &&& job.audio == self.audio
        &&& job.resume == self.resume
        &&& job.crf == self.crf
        &&& job.preset == self.preset
        &&& job.encoder == self.encoder
        &&& job.prefer_hw
        &&& job.gpu_upscale
        &&& job.format == OutputFormat::Mp4
        &&& job.container == Container::Mkv
        &&& job.baseline_dir is None
        &&& !job.snapshot_last_only
        &&& !job.update_baselines
        &&& !job.cpu_raster
    }

    /// Parse and validate the request; raw or dry runs dump raw frames, others encode AV1.
    pub fn into_job(self) -> (r: Result<(RenderJob, EncodeBackend), RenderError>)
        ensures
            r is Ok <==> self.first_error() is None,
            r matches Err(e) ==> self.first_error() == Some(e@),
            r matches Ok((job, b)) ==> self.becomes(job) && b == (if self.raw || self.dry_run {
                EncodeBackend::RawDump
            } else {
                EncodeBackend::FfmpegAv1
            }),
    {
        let duration = parse_duration_secs(self.duration.as_str())?;
        let segment = match &self.segment {
            Some(s) => Some(parse_duration_secs(s.as_str())?),
            None => None,
        };
        let job = RenderJob {
            effect: self.effect,
            plugin_path: self.plugin_path,
            seed: self.seed,
            fps: self.fps,
            duration,
            width: self.width,
            height: self.height,
            output: self.output,
            cols: self.cols,
            rows: self.rows,
            dry_run: self.dry_run,
            segment,
            audio: self.audio,
            resume: self.resume,
            crf: self.crf,
            preset: self.preset,
            encoder: self.encoder,
            prefer_hw: true,
            gpu_upscale: true,
            format: OutputFormat::Mp4,
            container: Container::Mkv,
            baseline_dir: None,
            snapshot_last_only: false,
            update_baselines: false,
            cpu_raster: false,
        };
        job.validate()?;
        let backend = if self.raw || self.dry_run {
            EncodeBackend::RawDump
        } else {
            EncodeBackend::FfmpegAv1
        };
        Ok((job, backend))
    }
}

/// The first of `AV1_CANDIDATES` whose name occurs in `text`, from index `k` on.
pub open spec fn first_mentioned(text: Seq<char>, k: int) -> Option<int>
    decreases 3 - k,
{
    if k >= 3 || k < 0 {
        None
    } else if contains(text, AV1_CANDIDATES[k]@) {
        Some(k)
    } else {
        first_mentioned(text, k + 1)
    }
}

/// Message when `ffmpeg -encoders` names no AV1 encoder.
pub open spec fn no_encoder_message() -> Seq<char> {
    "no AV1 encoder (libsvtav1/libaom-av1/librav1e) found"@
}

/// Pick the first AV1 encoder that `ffmpeg -encoders` output mentions.
pub fn detect_av1_encoder(encoders_text: &str) -> (r: Result<String, RenderError>)
    ensures
        match first_mentioned(encoders_text@, 0) {
            Some(i) => r matches Ok(name) && name@ == AV1_CANDIDATES[i]@,
            None => r matches Err(e) && e@ == RenderErrorView::Ffmpeg(no_encoder_message()),
        },
{
    let text = chars_of(encoders_text);
    let mut i: usize = 0;
    while i < 3
        invariant
            i <= 3,
            text@ == encoders_text@,
            first_mentioned(encoders_text@, 0) == first_mentioned(encoders_text@, i as int),
        decreases 3 - i,
    {
        let name = AV1_CANDIDATES[i];
        if contains_exec(&text, name) {
            return Ok(str_string(name));
        }
        i = i + 1;
    }
    Err(RenderError::Ffmpeg(str_string("no AV1 encoder (libsvtav1/libaom-av1/librav1e) found")))
}

/// ffmpeg arguments: raw BGRA on stdin, `-crf`, optional `-preset`, then the output.
pub open spec fn av1_args_spec(
    encoder: Seq<char>,
    settings: EncodeSettings,
    width: u32,
    height: u32,
    fps: u32,
    output: Seq<char>,
) -> Seq<Seq<char>> {
    seq![
        "-hide_banner"@,
        "-loglevel"@,
        "error"@,
        "-y"@,
        "-f"@,
        "rawvideo"@,
        "-pix_fmt"@,
        "bgra"@,
        "-s"@,
        size_arg(width, height),
        "-r"@,
        decimal(fps as nat),
        "-i"@,
        "-"@,
        "-an"@,
        "-c:v"@,
        encoder,
        "-crf"@,
        decimal(settings.crf as nat),
        "-pix_fmt"@,
        "yuv420p"@,
    ] + match opt_text(settings.preset) {
        Some(p) => seq!["-preset"@, p],
        None => seq![],
    } + seq![output]
}

fn push_text(args: &mut Vec<String>, t: String)
    ensures
        strs(final(args)@) == strs(old(args)@).push(t@),
{
    let ghost before = args@;
    args.push(t);
    assert(strs(args@) =~= strs(before).push(t@));
}

/// Arguments of the ffmpeg AV1 pipe.
pub fn av1_pipe_args(
    settings: &EncodeSettings,
    encoder: &str,
    width: u32,
    height: u32,
    fps: u32,
    output: &str,
) -> (r: Vec<String>)
    ensures
        strs(r@) == av1_args_spec(encoder@, *settings, width, height, fps, output@),
{
    let mut r: Vec<String> = Vec::new();
    push_text(&mut r, str_string("-hide_banner"));
    push_text(&mut r, str_string("-loglevel"));
    push_text(&mut r, str_string("error"));
    push_text(&mut r, str_string("-y"));
    push_text(&mut r, str_string("-f"));
    push_text(&mut r, str_string("rawvideo"));
    push_text(&mut r, str_string("-pix_fmt"));
    push_text(&mut r, str_string("bgra"));
    push_text(&mut r, str_string("-s"));
    let mut size = decimal_string(width as u64);
    size.append("x");
    append_chars(&mut size, &decimal_chars(height as u64));
    push_text(&mut r, size);
    push_text(&mut r, str_string("-r"));
    push_text(&mut r, decimal_string(fps as u64));
    push_text(&mut r, str_string("-i"));
    push_text(&mut r, str_string("-"));
    push_text(&mut r, str_string("-an"));
    push_text(&mut r, str_string("-c:v"));
    push_text(&mut r, str_string(encoder));
    push_text(&mut r, str_string("-crf"));
    push_text(&mut r, decimal_string(settings.crf as u64));
    push_text(&mut r, str_string("-pix_fmt"));
    push_text(&mut r, str_string("yuv420p"));
    if let Some(p) = &settings.preset {
        push_text(&mut r, str_string("-preset"));
        push_text(&mut r, p.clone());
    }
    push_text(&mut r, str_string(output));
    assert(strs(r@) =~= av1_args_spec(encoder@, *settings, width, height, fps, output@));
    r
}

/// Plan the encode: a raw dump at `output`, or an ffmpeg AV1 child whose encoder is the
/// forced one or the first mentioned in `encoders_text` (`ffmpeg -encoders` output).
pub fn encode_raw_bgra_to_file(
    backend: EncodeBackend,
    settings: &EncodeSettings,
    width: u32,
    height: u32,
    fps: u32,
    output: &str,
    encoders_text: &str,
) -> (r: Result<EncodeSink, RenderError>)
    ensures
        backend == EncodeBackend::RawDump ==> (r matches Ok(EncodeSink::RawFile { path }) && path@
            == output@),
        backend == EncodeBackend::FfmpegAv1 ==> (match settings.encoder {
            Some(forced) => r matches Ok(EncodeSink::Ffmpeg { encoder, args }) && encoder == forced
                && strs(args@) == av1_args_spec(forced@, *settings, width, height, fps, output@),
            None => match first_mentioned(encoders_text@, 0) {
                Some(i) => r matches Ok(EncodeSink::Ffmpeg { encoder, args }) && encoder@
                    == AV1_CANDIDATES[i]@ && strs(args@) == av1_args_spec(
                    encoder@,
                    *settings,
                    width,
                    height,
                    fps,
                    output@,
                ),
                None => r matches Err(e) && e@ == RenderErrorView::Ffmpeg(no_encoder_message()),
            },
        }),
{
    match backend {
        EncodeBackend::RawDump => Ok(EncodeSink::RawFile { path: str_string(output) }),
        EncodeBackend::FfmpegAv1 => {
            let encoder = match &settings.encoder {
                Some(name) => name.clone(),
                None => match detect_av1_encoder(encoders_text) {
                    Ok(n) => n,
                    Err(e) => {
                        return Err(e);
                    },
                },
            };
            let args = av1_pipe_args(settings, encoder.as_str(), width, height, fps, output);
            Ok(EncodeSink::Ffmpeg { encoder, args })
        },
    }
}

/// The error of an AV1 encode whose ffmpeg child exited unsuccessfully with `code`
/// (none when killed by a signal) after printing `stderr`.
pub fn ffmpeg_exit_error(code: Option<i32>, stderr: &str) -> (e: RenderError)
    ensures
        e@ == RenderErrorView::Ffmpeg("exit "@ + exit_code_text(code) + ": "@ + stderr@),
{
    let mut m = str_string("exit ");
    append_exit_code(&mut m, code);
    m.append(": ");
    m.append(stderr);
    assert(m@ =~= "exit "@ + exit_code_text(code) + ": "@ + stderr@);
    RenderError::Ffmpeg(m)
}

} // verus!
