//! The new-job form of the Director.
use vstd::prelude::*;
use crate::job_spec::JobSpec;
use crate::text::{
    append_chars, chars_of, decimal, decimal_chars, parse_u32, parse_u8, parse_unsigned, str_string,
    string_of, trim, trim_chars,
};

verus! {

/// Official saver basenames (the set the host packages ship).
pub const EFFECTS: [&'static str; 10] = [
    "beams",
    "bursts",
    "chaos",
    "cosmos",
    "glyphs",
    "gnats",
    "hearth",
    "radar",
    "ripple",
    "storm",
];

/// Which screen the Director shows.
#[derive(Debug, Clone, Copy, PartialEq, Eq, Structural)]
pub enum Screen {
    Queue,
    NewJob,
}

/// Fields of the new-job form (cycled with Tab / j / k).
#[derive(Debug, Clone, Copy, PartialEq, Eq, Structural)]
pub enum FormField {
    Effect,
    Duration,
    Width,
    Height,
    Fps,
    Crf,
    Output,
    DryRun,
}

/// The form's fields in display order.
pub const FORM_FIELDS: [FormField; 8] = [
    FormField::Effect,
    FormField::Duration,
    FormField::Width,
    FormField::Height,
    FormField::Fps,
    FormField::Crf,
    FormField::Output,
    FormField::DryRun,
];

/// Folder used for default output paths when no home folder is known.
pub const FALLBACK_VIDEO_DIR: &'static str = "/tmp";

/// The new-job form.
#[derive(Debug, Clone)]
pub struct NewJobForm {
    pub field_i: usize,
    pub effect_i: usize,
    pub duration: String,
    pub width: String,
    pub height: String,
    pub fps: String,
    pub crf: String,
    pub output: String,
    pub dry_run: bool,
    /// When true, typing edits the focused text field.
    pub editing: bool,
    /// Folder that default output paths are placed in.
    pub video_dir: String,
}

/// Seconds since the Unix epoch by the system clock (0 when the clock is before it).
/// Nothing is claimed of the value: it depends on the time.
#[verifier::external_body]
fn unix_now_secs() -> u64 {
    match std::time::SystemTime::now().duration_since(std::time::UNIX_EPOCH) {
        Ok(d) => d.as_secs(),
        Err(_) => 0,
    }
}

/// Folder for default outputs: `<home>/Videos`, or the fallback folder without a home.
pub open spec fn video_dir_spec(home: Option<Seq<char>>) -> Seq<char> {
    match home {
        Some(h) => h + "/Videos"@,
        None => FALLBACK_VIDEO_DIR@,
    }
}

/// The folder for default outputs, given `$HOME` when it is set.
pub fn video_dir_from(home: Option<&str>) -> (r: String)
    ensures
        r@ == video_dir_spec(
            match home {
                Some(h) => Some(h@),
                None => None,
            },
        ),
{
    match home {
        Some(h) => {
            let mut r = str_string(h);
            r.append("/Videos");
            r
        },
        None => str_string(FALLBACK_VIDEO_DIR),
    }
}

/// Default output path: `<dir>/idlescreen-<effect>-<stamp>.mkv`.
pub open spec fn output_path_spec(dir: Seq<char>, effect: Seq<char>, stamp: nat) -> Seq<char> {
    dir + "/idlescreen-"@ + effect + "-"@ + decimal(stamp) + ".mkv"@
}

/// Default output path for `effect`, stamped with `stamp` seconds.
pub fn default_output_path(dir: &str, effect: &str, stamp: u64) -> (r: String)
    ensures
        r@ == output_path_spec(dir@, effect@, stamp as nat),
{
    let mut r = str_string(dir);
    r.append("/idlescreen-");
    r.append(effect);
    r.append("-");
    append_chars(&mut r, &decimal_chars(stamp));
    r.append(".mkv");
    r
}

/// `i mod n`, always in `0..n`.
pub open spec fn wrap(i: int, n: int) -> int {
    i % n
}

/// Stepping around a ring and back undoes the step: for a position `i` on a ring of
/// `n` and any step `d`, moving by `d` and then by `-d` returns to `i`.
pub proof fn lemma_wrap_back(i: int, d: int, n: int)
    requires
        0 < n,
        0 <= i < n,
    ensures
        wrap(wrap(i + d, n) - d, n) == i,
{
    let j = wrap(i + d, n);
    vstd::arithmetic::div_mod::lemma_fundamental_div_mod(i + d, n);
    let q = (i + d) / n;
    assert(j == i + d - n * q);
    assert(j - d == n * (-q) + i) by (nonlinear_arith)
        requires
            j == i + d - n * q,
    ;
    vstd::arithmetic::div_mod::lemma_mod_multiples_vanish(-q, i, n);
    vstd::arithmetic::div_mod::lemma_small_mod(i as nat, n as nat);
}

/// Index `i` moved by `dir` steps around a ring of `n` (as the form cycles).
fn ring_step(i: usize, dir: i32, n: usize) -> (r: usize)
    requires
        1 <= n <= 64,
        i32::MIN <= (i as i32) + dir <= i32::MAX,
    ensures
        r == wrap((i as i32) + dir, n as int),
        r < n,
{
    let j: i64 = (i as i32) as i64 + dir as i64;
    let m: i64 = n as i64;
    let t: i64 = j + m * 0x8000_0000;
    let k: u64 = (t as u64) % (n as u64);
    proof {
        vstd::arithmetic::div_mod::lemma_mod_multiples_vanish(0x8000_0000, j as int, m as int);
        assert(m * 0x8000_0000 + j == t);
    }
    k as usize
}

/// The number in `s` (surrounding whitespace ignored), read as an integer up to `max`.
pub open spec fn field_number(s: Seq<char>, max: nat) -> Option<nat> {
    parse_unsigned(trim(s), max)
}

/// Message when the crf field is no 8-bit number.
pub open spec fn crf_message() -> Seq<char> {
    "crf must be 0–63"@
}

impl Default for NewJobForm {
    /// A fresh form placing default outputs in the fallback folder.
    fn default() -> (f: Self)
        ensures
            f.field_i == 0,
            f.effect_i == 0,
            f.duration@ == "10s"@,
            f.width@ == "1280"@,
            f.height@ == "720"@,
            f.fps@ == "30"@,
            f.crf@ == "35"@,
            f.video_dir@ == FALLBACK_VIDEO_DIR@,
            exists|stamp: nat| f.output@ == output_path_spec(FALLBACK_VIDEO_DIR@, "beams"@, stamp),
            !f.dry_run,
            !f.editing,
    {
        NewJobForm::new(str_string(FALLBACK_VIDEO_DIR))
    }
}

impl NewJobForm {
    /// The first fault of the form: width, height, fps not numbers, crf no number in
    /// 0–63, then a zero size or rate, then an empty output path.
    pub open spec fn form_error(self) -> Option<Seq<char>> {
        if field_number(self.width@, u32::MAX as nat) is None {
            Some("width must be a number"@)
        } else if field_number(self.height@, u32::MAX as nat) is None {
            Some("height must be a number"@)
        } else if field_number(self.fps@, u32::MAX as nat) is None {
            Some("fps must be a number"@)
        } else if field_number(self.crf@, 63) is None {
            Some(crf_message())
        } else if field_number(self.width@, u32::MAX as nat) == Some(0nat) || field_number(
            self.height@,
            u32::MAX as nat,
        ) == Some(0nat) || field_number(self.fps@, u32::MAX as nat) == Some(0nat) {
            Some("width, height, and fps must be > 0"@)
        } else if trim(self.output@).len() == 0 {
            Some("output path required"@)
        } else {
            None
        }
    }

    /// `spec` is the job the form describes: the selected effect, the parsed numbers,
    /// trimmed duration and output, the default seed, hardware encoders preferred, the
    /// CPU upscale path, and nothing else set.
    pub open spec fn describes(self, spec: JobSpec) -> bool {
        &&& spec.effect@ == EFFECTS[(self.effect_i % 10) as int]@
        &&& spec.plugin_path is None
        &&& spec.seed == 0x00C0_FFEE
        &&& field_number(self.fps@, u32::MAX as nat) == Some(spec.fps as nat)
        &&& spec.duration@ == trim(self.duration@)
        &&& spec.output@ == trim(self.output@)
        &&& field_number(self.width@, u32::MAX as nat) == Some(spec.width as nat)
        &&& field_number(self.height@, u32::MAX as nat) == Some(spec.height as nat)
        &&& spec.cols is None
        &&& spec.rows is None
        &&& spec.dry_run == self.dry_run
        &&& !spec.raw
        &&& spec.segment is None
        &&& spec.audio is None
        &&& !spec.resume
        &&& field_number(self.crf@, u8::MAX as nat) == Some(spec.crf as nat)
        &&& spec.preset is None
        &&& spec.encoder is None
        &&& spec.prefer_hw
        &&& !spec.gpu_upscale
        &&& spec.format is None
        &&& spec.container is None
        &&& spec.baseline_dir is None
        &&& !spec.snapshot_last_only
        &&& !spec.update_baselines
        &&& !spec.cpu_raster
    }

    /// An accepted form has a positive width, height and frame rate, a crf of at most
    /// 63 and a non-blank output, and so does the job it describes. A form whose
    /// numbers all read, with a valid crf, but one of width, height or frame rate zero
    /// is refused with "width, height, and fps must be > 0".
    pub proof fn law_accepted_form(self, spec: JobSpec)
        ensures
            self.form_error() is None ==> {
                &&& field_number(self.width@, u32::MAX as nat) matches Some(w) && w > 0
                &&& field_number(self.height@, u32::MAX as nat) matches Some(h) && h > 0
                &&& field_number(self.fps@, u32::MAX as nat) matches Some(r) && r > 0
                &&& field_number(self.crf@, u8::MAX as nat) matches Some(c) && c <= 63
                &&& trim(self.output@).len() > 0
            },
            self.form_error() is None && self.describes(spec) ==> spec.width > 0 && spec.height > 0
                && spec.fps > 0 && spec.crf <= 63 && spec.output@.len() > 0,
            ({
                let w = field_number(self.width@, u32::MAX as nat);
                let h = field_number(self.height@, u32::MAX as nat);
                let r = field_number(self.fps@, u32::MAX as nat);
                let c = field_number(self.crf@, u8::MAX as nat);
                (w is Some && h is Some && r is Some && c is Some && c.unwrap() <= 63 && (w == Some(0nat) || h
                    == Some(0nat) || r == Some(0nat))) ==> self.form_error() == Some(
                    "width, height, and fps must be > 0"@,
                )
            }),
    {
    }

    /// The job this form describes, or the first problem with it.
    pub fn to_job_spec(&self) -> (r: Result<JobSpec, String>)
        ensures
            r is Ok <==> self.form_error() is None,
            r matches Err(m) ==> self.form_error() == Some(m@),
            r matches Ok(spec) ==> self.describes(spec),
    {
        let width = match parse_u32(&trim_chars(&chars_of(self.width.as_str()))) {
            Some(v) => v,
            None => {
                return Err(str_string("width must be a number"));
            },
        };
        let height = match parse_u32(&trim_chars(&chars_of(self.height.as_str()))) {
            Some(v) => v,
            None => {
                return Err(str_string("height must be a number"));
            },
        };
        let fps = match parse_u32(&trim_chars(&chars_of(self.fps.as_str()))) {
            Some(v) => v,
            None => {
                return Err(str_string("fps must be a number"));
            },
        };
        let crf = match parse_u8(&trim_chars(&chars_of(self.crf.as_str()))) {
            Some(v) => v,
            None => {
                return Err(str_string("crf must be 0–63"));
            },
        };
        if crf > 63 {
            return Err(str_string("crf must be 0–63"));
        }
        if width == 0 || height == 0 || fps == 0 {
            return Err(str_string("width, height, and fps must be > 0"));
        }
        let output = trim_chars(&chars_of(self.output.as_str()));
        if output.len() == 0 {
            return Err(str_string("output path required"));
        }
        let duration = trim_chars(&chars_of(self.duration.as_str()));
        Ok(JobSpec {
            effect: str_string(self.effect()),
            plugin_path: None,
            seed: 0x00C0_FFEE,
            fps,
            duration: string_of(&duration),
            output: string_of(&output),
            width,
            height,
            cols: None,
            rows: None,
            dry_run: self.dry_run,
            raw: false,
            segment: None,
            audio: None,
            resume: false,
            crf,
            preset: None,
            encoder: None,
            prefer_hw: true,
            gpu_upscale: false,
            format: None,
            container: None,
            baseline_dir: None,
            snapshot_last_only: false,
            update_baselines: false,
            cpu_raster: false,
        })
    }

    /// A fresh form whose default output goes into `video_dir`.
    pub fn new(video_dir: String) -> (f: Self)
        ensures
            f.field_i == 0,
            f.effect_i == 0,
            f.duration@ == "10s"@,
            f.width@ == "1280"@,
            f.height@ == "720"@,
            f.fps@ == "30"@,
            f.crf@ == "35"@,
            f.video_dir == video_dir,
            exists|stamp: nat| f.output@ == output_path_spec(video_dir@, "beams"@, stamp),
            !f.dry_run,
            !f.editing,
    {
        let output = default_output_path(video_dir.as_str(), EFFECTS[0], unix_now_secs());
        NewJobForm {
            field_i: 0,
            effect_i: 0,
            duration: str_string("10s"),
            width: str_string("1280"),
            height: str_string("720"),
            fps: str_string("30"),
            crf: str_string("35"),
            output,
            dry_run: false,
            editing: false,
            video_dir,
        }
    }

    /// The focused field.
    pub fn field(&self) -> (f: FormField)
        ensures
            f == FORM_FIELDS[(self.field_i % 8) as int],
    {
        FORM_FIELDS[self.field_i % 8]
    }

    /// Move the effect selection `dir` steps (wrapping) and refresh the default output
    /// path for the new effect.
    pub fn cycle_effect(&mut self, dir: i32)
        requires
            i32::MIN <= (old(self).effect_i as i32) + dir <= i32::MAX,
        ensures
            final(self).effect_i == wrap((old(self).effect_i as i32) + dir, 10),
            exists|stamp: nat|
                final(self).output@ == output_path_spec(
                    old(self).video_dir@,
                    EFFECTS[final(self).effect_i as int]@,
                    stamp,
                ),
            final(self).field_i == old(self).field_i,
            final(self).duration == old(self).duration,
            final(self).width == old(self).width,
            final(self).height == old(self).height,
            final(self).fps == old(self).fps,
            final(self).crf == old(self).crf,
            final(self).dry_run == old(self).dry_run,
            final(self).editing == old(self).editing,
            final(self).video_dir == old(self).video_dir,
    {
        self.effect_i = ring_step(self.effect_i, dir, 10);
        let e = self.effect();
        assert(self.effect_i % 10 == self.effect_i);
        let stamp = unix_now_secs();
        self.output = default_output_path(self.video_dir.as_str(), e, stamp);
        assert(self.output@ == output_path_spec(
            self.video_dir@,
            EFFECTS[self.effect_i as int]@,
            stamp as nat,
        ));
    }

    /// Move the focus `dir` fields (wrapping) and leave edit mode.
    pub fn next_field(&mut self, dir: i32)
        requires
            i32::MIN <= (old(self).field_i as i32) + dir <= i32::MAX,
        ensures
            final(self).field_i == wrap((old(self).field_i as i32) + dir, 8),
            !final(self).editing,
            *final(self) == (NewJobForm { field_i: final(self).field_i, editing: false, ..*old(self) }),
    {
        self.field_i = ring_step(self.field_i, dir, 8);
        self.editing = false;
    }

    /// The text of the focused field, for editing; `None` on the effect and dry-run
    /// fields.
    pub fn text_mut(&mut self) -> (r: Option<&mut String>)
        ensures
            match FORM_FIELDS[(old(self).field_i % 8) as int] {
                FormField::Duration => r matches Some(t) && *t == old(self).duration && *final(self) == (NewJobForm { duration: *final(t), ..*old(self) }),
                FormField::Width => r matches Some(t) && *t == old(self).width && *final(self) == (NewJobForm { width: *final(t), ..*old(self) }),
                FormField::Height => r matches Some(t) && *t == old(self).height && *final(self) == (NewJobForm { height: *final(t), ..*old(self) }),
                FormField::Fps => r matches Some(t) && *t == old(self).fps && *final(self) == (NewJobForm { fps: *final(t), ..*old(self) }),
                FormField::Crf => r matches Some(t) && *t == old(self).crf && *final(self) == (NewJobForm { crf: *final(t), ..*old(self) }),
                FormField::Output => r matches Some(t) && *t == old(self).output && *final(self) == (NewJobForm { output: *final(t), ..*old(self) }),
                _ => r is None && *final(self) == *old(self),
            },
    {
        match self.field() {
            FormField::Duration => Some(&mut self.duration),
            FormField::Width => Some(&mut self.width),
            FormField::Height => Some(&mut self.height),
            FormField::Fps => Some(&mut self.fps),
            FormField::Crf => Some(&mut self.crf),
            FormField::Output => Some(&mut self.output),
            FormField::Effect | FormField::DryRun => None,
        }
    }

    /// The selected effect.
    pub fn effect(&self) -> (e: &'static str)
        ensures
            e == EFFECTS[(self.effect_i % 10) as int],
    {
        EFFECTS[self.effect_i % 10]
    }
}

} // verus!
