//! The JSON job contract for the Director (and any other driver): a request with
//! text durations that `into_job` checks and turns into a [`RenderJob`].
use vstd::prelude::*;
use crate::duration::{duration_spec, parse_duration_secs, Duration};
use crate::encode::EncodeBackend;
use crate::error::{RenderError, RenderErrorView};
use crate::models::{opt_view, validate_spec, Container, OutputFormat, RenderJob};
use crate::text::{chars_of, chars_eq_str, lower, lower_chars, str_string, append_chars};

verus! {

/// Serializable render request (text durations, JSON-friendly). Paths are text.
#[derive(Debug, Clone, PartialEq)]
pub struct JobSpec {
    pub effect: String,
    pub plugin_path: Option<String>,
    pub seed: u64,
    pub fps: u32,
    /// Human duration: `10s`, `5m`, `2h`, `1d`, or bare seconds.
    pub duration: String,
    pub output: String,
    pub width: u32,
    pub height: u32,
    pub cols: Option<usize>,
    pub rows: Option<usize>,
    pub dry_run: bool,
    pub raw: bool,
    pub segment: Option<String>,
    pub audio: Option<String>,
    pub resume: bool,
    pub crf: u8,
    pub preset: Option<String>,
    pub encoder: Option<String>,
    /// Prefer hardware encoders when auto-detecting (default true).
    pub prefer_hw: bool,
    /// Request the GPU upscale path (default true).
    pub gpu_upscale: bool,
    /// Output family (`mp4` / `png` / `raw`). Default `mp4`.
    pub format: Option<String>,
    /// Container (`mp4` / `mkv`). Default `mkv`.
    pub container: Option<String>,
    /// Optional baseline directory for snapshot comparison.
    pub baseline_dir: Option<String>,
    /// Only compare the final frame against the baseline.
    pub snapshot_last_only: bool,
    /// Overwrite baseline files instead of comparing.
    pub update_baselines: bool,
    /// Force CPU raster (deterministic; bypasses GPU variance).
    pub cpu_raster: bool,
}

/// Seed used when a job names none.
pub fn default_seed() -> (r: u64)
    ensures
        r == 0x00C0_FFEE,
{
    0x00C0_FFEE
}

/// Frame rate used when a job names none.
pub fn default_fps() -> (r: u32)
    ensures
        r == 30,
{
    30
}

/// Width used when a job names none.
pub fn default_w() -> (r: u32)
    ensures
        r == 1280,
{
    1280
}

/// Height used when a job names none.
pub fn default_h() -> (r: u32)
    ensures
        r == 720,
{
    720
}

/// Quality used when a job names none.
pub fn default_crf() -> (r: u8)
    ensures
        r == 35,
{
    35
}

/// Default of the flags that are on unless switched off.
pub fn default_true() -> (r: bool)
    ensures
        r,
{
    true
}

/// What `parse_format` gives for `s`.
pub open spec fn format_spec(s: Seq<char>) -> Result<OutputFormat, RenderErrorView> {
    let l = lower(s);
    if l == "mp4"@ || l == "video"@ {
        Ok(OutputFormat::Mp4)
    } else if l == "png"@ || l == "pngs"@ || l == "png-sequence"@ || l == "png_sequence"@ {
        Ok(OutputFormat::Png)
    } else if l == "raw"@ || l == "stdout"@ || l == "stdout-raw"@ || l == "stdout_raw"@ {
        Ok(OutputFormat::Raw)
    } else {
        Err(RenderErrorView::Job("unknown format '"@ + l + "'"@))
    }
}

/// A PNG-sequence name: `png`, `pngs`, `png-sequence` or `png_sequence`.
pub open spec fn png_alias(l: Seq<char>) -> bool {
    l == seq!['p', 'n', 'g'] || l == seq!['p', 'n', 'g', 's'] || l == seq![
        'p',
        'n',
        'g',
        '-',
        's',
        'e',
        'q',
        'u',
        'e',
        'n',
        'c',
        'e',
    ] || l == seq!['p', 'n', 'g', '_', 's', 'e', 'q', 'u', 'e', 'n', 'c', 'e']
}

/// A raw-frames name: `raw`, `stdout`, `stdout-raw` or `stdout_raw`.
pub open spec fn raw_alias(l: Seq<char>) -> bool {
    l == seq!['r', 'a', 'w'] || l == seq!['s', 't', 'd', 'o', 'u', 't'] || l == seq![
        's',
        't',
        'd',
        'o',
        'u',
        't',
        '-',
        'r',
        'a',
        'w',
    ] || l == seq!['s', 't', 'd', 'o', 'u', 't', '_', 'r', 'a', 'w']
}

/// A video name: `mp4` or `video`.
pub open spec fn video_alias(l: Seq<char>) -> bool {
    l == seq!['m', 'p', '4'] || l == seq!['v', 'i', 'd', 'e', 'o']
}

/// Format names, in any ASCII case: the PNG-sequence names give one PNG per frame, the
/// raw names raw frames, the video names encoded video; every other name is refused as
/// an unknown format.
pub proof fn law_format_names(s: Seq<char>)
    ensures
        png_alias(lower(s)) ==> format_spec(s) == Ok::<OutputFormat, RenderErrorView>(OutputFormat::Png),
        raw_alias(lower(s)) ==> format_spec(s) == Ok::<OutputFormat, RenderErrorView>(OutputFormat::Raw),
        video_alias(lower(s)) ==> format_spec(s) == Ok::<OutputFormat, RenderErrorView>(OutputFormat::Mp4),
        !png_alias(lower(s)) && !raw_alias(lower(s)) && !video_alias(lower(s)) ==> format_spec(s) matches Err(
            RenderErrorView::Job(_),
        ),
{
    reveal_strlit("mp4");
    reveal_strlit("video");
    reveal_strlit("png");
    reveal_strlit("pngs");
    reveal_strlit("png-sequence");
    reveal_strlit("png_sequence");
    reveal_strlit("raw");
    reveal_strlit("stdout");
    reveal_strlit("stdout-raw");
    reveal_strlit("stdout_raw");
    let l = lower(s);
    assert("mp4"@ =~= seq!['m', 'p', '4']);
    assert("video"@ =~= seq!['v', 'i', 'd', 'e', 'o']);
    assert("png"@ =~= seq!['p', 'n', 'g']);
    assert("pngs"@ =~= seq!['p', 'n', 'g', 's']);
    assert("png-sequence"@ =~= seq!['p', 'n', 'g', '-', 's', 'e', 'q', 'u', 'e', 'n', 'c', 'e']);
    assert("png_sequence"@ =~= seq!['p', 'n', 'g', '_', 's', 'e', 'q', 'u', 'e', 'n', 'c', 'e']);
    assert("raw"@ =~= seq!['r', 'a', 'w']);
    assert("stdout"@ =~= seq!['s', 't', 'd', 'o', 'u', 't']);
    assert("stdout-raw"@ =~= seq!['s', 't', 'd', 'o', 'u', 't', '-', 'r', 'a', 'w']);
    assert("stdout_raw"@ =~= seq!['s', 't', 'd', 'o', 'u', 't', '_', 'r', 'a', 'w']);
    if png_alias(l) || raw_alias(l) {
        assert(l[0] != 'm' && l[0] != 'v');
    }
    if raw_alias(l) {
        assert(l[0] != 'p');
    }
}

/// Container names, in any ASCII case: `mkv` and `matroska` give Matroska, `mp4` gives
/// MP4; every other name is refused as an unknown container.
pub proof fn law_container_names(s: Seq<char>)
    ensures
        (lower(s) == seq!['m', 'k', 'v'] || lower(s) == seq!['m', 'a', 't', 'r', 'o', 's', 'k', 'a'])
            ==> container_spec(s) == Ok::<Container, RenderErrorView>(Container::Mkv),
        lower(s) == seq!['m', 'p', '4'] ==> container_spec(s) == Ok::<Container, RenderErrorView>(Container::Mp4),
        !(lower(s) == seq!['m', 'k', 'v'] || lower(s) == seq!['m', 'a', 't', 'r', 'o', 's', 'k', 'a'] || lower(s)
            == seq!['m', 'p', '4']) ==> container_spec(s) matches Err(RenderErrorView::Job(_)),
{
    reveal_strlit("mkv");
    reveal_strlit("matroska");
    reveal_strlit("mp4");
    assert("mkv"@ =~= seq!['m', 'k', 'v']);
    assert("matroska"@ =~= seq!['m', 'a', 't', 'r', 'o', 's', 'k', 'a']);
    assert("mp4"@ =~= seq!['m', 'p', '4']);
    let l = lower(s);
    if l == seq!['m', 'p', '4'] {
        assert(l[1] != 'k' && l.len() != 8);
    }
}

/// What `parse_container` gives for `s`.
pub open spec fn container_spec(s: Seq<char>) -> Result<Container, RenderErrorView> {
    let l = lower(s);
    if l == "mkv"@ || l == "matroska"@ {
        Ok(Container::Mkv)
    } else if l == "mp4"@ {
        Ok(Container::Mp4)
    } else {
        Err(RenderErrorView::Job("unknown container '"@ + l + "'"@))
    }
}

/// Output family by name (any ASCII case).
pub fn parse_format(s: &str) -> (r: Result<OutputFormat, RenderError>)
    ensures
        match r {
            Ok(f) => format_spec(s@) == Ok::<OutputFormat, RenderErrorView>(f),
            Err(e) => format_spec(s@) == Err::<OutputFormat, RenderErrorView>(e@),
        },
{
    let l = lower_chars(&chars_of(s));
    if chars_eq_str(&l, "mp4") || chars_eq_str(&l, "video") {
        Ok(OutputFormat::Mp4)
    } else if chars_eq_str(&l, "png") || chars_eq_str(&l, "pngs") || chars_eq_str(&l, "png-sequence")
        || chars_eq_str(&l, "png_sequence") {
        Ok(OutputFormat::Png)
    } else if chars_eq_str(&l, "raw") || chars_eq_str(&l, "stdout") || chars_eq_str(&l, "stdout-raw")
        || chars_eq_str(&l, "stdout_raw") {
        Ok(OutputFormat::Raw)
    } else {
        let mut m = str_string("unknown format '");
        append_chars(&mut m, &l);
        m.append("'");
        Err(RenderError::Job(m))
    }
}

/// Container by name (any ASCII case).
pub fn parse_container(s: &str) -> (r: Result<Container, RenderError>)
    ensures
        match r {
            Ok(c) => container_spec(s@) == Ok::<Container, RenderErrorView>(c),
            Err(e) => container_spec(s@) == Err::<Container, RenderErrorView>(e@),
        },
{
    let l = lower_chars(&chars_of(s));
    if chars_eq_str(&l, "mkv") || chars_eq_str(&l, "matroska") {
        Ok(Container::Mkv)
    } else if chars_eq_str(&l, "mp4") {
        Ok(Container::Mp4)
    } else {
        let mut m = str_string("unknown container '");
        append_chars(&mut m, &l);
        m.append("'");
        Err(RenderError::Job(m))
    }
}

/// Back end that renders a job: PNG frames, raw bytes (to stdout when asked), or
/// video (a raw dump on dry runs, H.264 in MP4, AV1 otherwise).
pub open spec fn backend_for(
    format: OutputFormat,
    container: Container,
    dry_run: bool,
    stdout_raw: bool,
) -> EncodeBackend {
    match format {
        OutputFormat::Png => EncodeBackend::PngSequence,
        OutputFormat::Raw => if stdout_raw {
            EncodeBackend::StdoutRaw
        } else {
            EncodeBackend::RawDump
        },
        OutputFormat::Mp4 => if dry_run {
            EncodeBackend::RawDump
        } else if container == Container::Mp4 {
            EncodeBackend::FfmpegH264
        } else {
            EncodeBackend::FfmpegAv1
        },
    }
}

/// Selects the back end for a validated job.
pub fn select_backend(
    format: OutputFormat,
    container: Container,
    dry_run: bool,
    stdout_raw: bool,
) -> (b: EncodeBackend)
    ensures
        b == backend_for(format, container, dry_run, stdout_raw),
{
    match format {
        OutputFormat::Png => EncodeBackend::PngSequence,
        OutputFormat::Raw => if stdout_raw {
            EncodeBackend::StdoutRaw
        } else {
            EncodeBackend::RawDump
        },
        OutputFormat::Mp4 => if dry_run {
            EncodeBackend::RawDump
        } else if container == Container::Mp4 {
            EncodeBackend::FfmpegH264
        } else {
            EncodeBackend::FfmpegAv1
        },
    }
}

/// A duration string parsed to seconds, or its error.
pub open spec fn duration_result(s: Seq<char>) -> Result<nat, RenderErrorView> {
    match duration_spec(s) {
        Ok(n) => Ok(n),
        Err(m) => Err(RenderErrorView::Duration(m)),
    }
}

/// An optional duration string parsed to seconds, or its error.
pub open spec fn opt_duration_result(s: Option<String>) -> Result<Option<nat>, RenderErrorView> {
    match s {
        None => Ok(None),
        Some(t) => match duration_result(t@) {
            Ok(n) => Ok(Some(n)),
            Err(e) => Err(e),
        },
    }
}

pub open spec fn opt_secs(d: Option<Duration>) -> Option<nat> {
    match d {
        Some(x) => Some(x.spec_secs()),
        None => None,
    }
}

/// A copy of an optional text.
pub fn clone_opt(o: &Option<String>) -> (r: Option<String>)
    ensures
        r == *o,
{
    match o {
        Some(s) => Some(s.clone()),
        None => None,
    }
}

impl JobSpec {
    /// An identical copy of the request.
    pub fn duplicate(&self) -> (r: JobSpec)
        ensures
            r == *self,
    {
        JobSpec {
            effect: self.effect.clone(),
            plugin_path: clone_opt(&self.plugin_path),
            seed: self.seed,
            fps: self.fps,
            duration: self.duration.clone(),
            output: self.output.clone(),
            width: self.width,
            height: self.height,
            cols: self.cols,
            rows: self.rows,
            dry_run: self.dry_run,
            raw: self.raw,
            segment: clone_opt(&self.segment),
            audio: clone_opt(&self.audio),
            resume: self.resume,
            crf: self.crf,
            preset: clone_opt(&self.preset),
            encoder: clone_opt(&self.encoder),
            prefer_hw: self.prefer_hw,
            gpu_upscale: self.gpu_upscale,
            format: clone_opt(&self.format),
            container: clone_opt(&self.container),
            baseline_dir: clone_opt(&self.baseline_dir),
            snapshot_last_only: self.snapshot_last_only,
            update_baselines: self.update_baselines,
            cpu_raster: self.cpu_raster,
        }
    }

    /// The output family a job asks for: raw when `raw` is set, else its `format`
    /// (default mp4).
    pub open spec fn format_result(self) -> Result<OutputFormat, RenderErrorView> {
        if self.raw {
            Ok(OutputFormat::Raw)
        } else {
            match self.format {
                Some(s) => format_spec(s@),
                None => Ok(OutputFormat::Mp4),
            }
        }
    }

    /// The container a job asks for (default mkv).
    pub open spec fn container_result(self) -> Result<Container, RenderErrorView> {
        match self.container {
            Some(s) => container_spec(s@),
            None => Ok(Container::Mkv),
        }
    }

    /// The first fault `into_job` reports: duration, segment, format, container, then
    /// the path checks.
    pub open spec fn first_error(self) -> Option<RenderErrorView> {
        if duration_result(self.duration@) is Err {
            Some(duration_result(self.duration@)->Err_0)
        } else if opt_duration_result(self.segment) is Err {
            Some(opt_duration_result(self.segment)->Err_0)
        } else if self.format_result() is Err {
            Some(self.format_result()->Err_0)
        } else if self.container_result() is Err {
            Some(self.container_result()->Err_0)
        } else {
            validate_spec(self.output@, opt_view(self.plugin_path), opt_view(self.audio))
        }
    }

    /// `job` is this request with its durations, format and container parsed.
    pub open spec fn becomes(self, job: RenderJob) -> bool {
        &&& job.effect == self.effect
        &&& job.plugin_path == self.plugin_path
        &&& job.seed == self.seed
        &&& job.fps == self.fps
        &&& duration_result(self.duration@) == Ok::<nat, RenderErrorView>(job.duration.spec_secs())
        &&& job.width == self.width
        &&& job.height == self.height
        &&& job.output == self.output
        &&& job.cols == self.cols
        &&& job.rows == self.rows
        &&& job.dry_run == self.dry_run
        &&& opt_duration_result(self.segment) == Ok::<Option<nat>, RenderErrorView>(opt_secs(job.segment))
        &&& job.audio == self.audio
        &&& job.resume == self.resume
        &&& job.crf == self.crf
        &&& job.preset == self.preset
        &&& job.encoder == self.encoder
        &&& job.prefer_hw == self.prefer_hw
        &&& job.gpu_upscale == self.gpu_upscale
        &&& self.format_result() == Ok::<OutputFormat, RenderErrorView>(job.format)
        &&& self.container_result() == Ok::<Container, RenderErrorView>(job.container)
        &&& job.baseline_dir == self.baseline_dir
        &&& job.snapshot_last_only == self.snapshot_last_only
        &&& job.update_baselines == self.update_baselines
        &&& job.cpu_raster == self.cpu_raster
    }

    /// Parse and validate the request. `raw` also routes raw output to stdout.
    pub fn into_job(self) -> (r: Result<(RenderJob, EncodeBackend), RenderError>)
        ensures
            r is Ok <==> self.first_error() is None,
            r matches Err(e) ==> self.first_error() == Some(e@),
            r matches Ok((job, b)) ==> self.becomes(job) && b == backend_for(
                job.format,
                job.container,
                job.dry_run,
                self.raw,
            ),
    {
        let ghost me = self;
        let duration = parse_duration_secs(self.duration.as_str())?;
        let segment = match &self.segment {
            Some(s) => Some(parse_duration_secs(s.as_str())?),
            None => None,
        };
        let format = if self.raw {
            OutputFormat::Raw
        } else {
            match &self.format {
                Some(s) => parse_format(s.as_str())?,
                None => OutputFormat::Mp4,
            }
        };
        let container = match &self.container {
            Some(s) => parse_container(s.as_str())?,
            None => Container::Mkv,
        };
        let stdout_raw = self.raw;
        let job = RenderJob {
            effect: self.effect,
            plugin_path: self.plugin_path,
            seed: self.seed,
            fps: self.fps,
            duration,
            width: self.width,
            height: self.height,
            output: self.output,
            cols: self.cols,
            rows: self.rows,
            dry_run: self.dry_run,
            segment,
            audio: self.audio,
            resume: self.resume,
            crf: self.crf,
            preset: self.preset,
            encoder: self.encoder,
            prefer_hw: self.prefer_hw,
            gpu_upscale: self.gpu_upscale,
            format,
            container,
            baseline_dir: self.baseline_dir,
            snapshot_last_only: self.snapshot_last_only,
            update_baselines: self.update_baselines,
            cpu_raster: self.cpu_raster,
        };
        job.validate()?;
        let backend = select_backend(job.format, job.container, job.dry_run, stdout_raw);
        Ok((job, backend))
    }
}

} // verus!
