//! Snapshot flow for last-frame-only runs.
//!
//! When a job sets both `snapshot_last_only` and `baseline_dir`, its output is compared
//! against `<baseline_dir>/<scenario>.last.<ext>`, or the baseline is overwritten when
//! `update_baselines` is set and the overwrite is authorized. The caller performs the
//! file work each step names and hands the results back.
use vstd::prelude::*;
use crate::error::{RenderError, RenderErrorView};
use crate::models::{Container, OutputFormat, RenderJob};
use crate::snapshot::{
    compare_verdict, is_png_path, mismatch_text, path_extension, png_rgba, SnapshotMismatch, SnapshotOutcome,
};
use crate::text::{
    append_chars, chars_of, decimal, decimal_chars, hex_fixed, hex_fixed_chars, str_string,
};

verus! {

/// `Path::join` of a directory and a relative or absolute name, as text.
pub open spec fn join_spec(dir: Seq<char>, name: Seq<char>) -> Seq<char> {
    if name.len() > 0 && name[0] == '/' {
        name
    } else if dir.len() == 0 {
        name
    } else if dir.last() == '/' {
        dir + name
    } else {
        dir + "/"@ + name
    }
}

/// Join `name` onto the directory `dir`.
pub fn join_path(dir: &str, name: &str) -> (r: String)
    ensures
        r@ == join_spec(dir@, name@),
{
    let d = chars_of(dir);
    let n = chars_of(name);
    if n.len() > 0 && n[0] == '/' {
        return str_string(name);
    }
    if d.len() == 0 {
        return str_string(name);
    }
    let mut r = str_string(dir);
    if d[d.len() - 1] != '/' {
        r.append("/");
    }
    r.append(name);
    r
}

/// Stable scenario name: `<effect>_seed<16 hex digits>_d<seconds>s`.
pub open spec fn scenario_spec(job: RenderJob) -> Seq<char> {
    job.effect@ + "_seed"@ + hex_fixed(job.seed as nat, 16) + "_d"@ + decimal(
        job.duration.spec_secs(),
    ) + "s"@
}

/// Baseline file extension for the job's output family.
pub open spec fn baseline_ext(format: OutputFormat, container: Container) -> Seq<char> {
    match format {
        OutputFormat::Png => "png"@,
        OutputFormat::Raw => "bgra"@,
        OutputFormat::Mp4 => match container {
            Container::Mp4 => "mp4"@,
            Container::Mkv => "mkv"@,
        },
    }
}

/// `<dir>/<scenario>.last.<ext>` when the job has a baseline directory.
pub open spec fn baseline_path_spec(job: RenderJob) -> Option<Seq<char>> {
    match job.baseline_dir {
        Some(dir) => Some(
            join_spec(dir@, scenario_spec(job) + ".last."@ + baseline_ext(job.format, job.container)),
        ),
        None => None,
    }
}

/// Derive the scenario name from the effect, seed and duration.
pub fn scenario_name(job: &RenderJob) -> (s: String)
    ensures
        s@ == scenario_spec(*job),
{
    let mut s = job.effect.clone();
    s.append("_seed");
    append_chars(&mut s, &hex_fixed_chars(job.seed, 16));
    s.append("_d");
    append_chars(&mut s, &decimal_chars(job.duration.as_secs()));
    s.append("s");
    s
}

/// Build the scenario baseline file path: `<dir>/<scenario>.last.<ext>`.
pub fn baseline_path_for(job: &RenderJob) -> (r: Option<String>)
    ensures
        match r {
            Some(p) => baseline_path_spec(*job) == Some(p@),
            None => baseline_path_spec(*job) is None,
        },
{
    let dir = match &job.baseline_dir {
        Some(d) => d,
        None => {
            return None;
        },
    };
    let mut name = scenario_name(job);
    name.append(".last.");
    let ext = match job.format {
        OutputFormat::Png => "png",
        OutputFormat::Raw => "bgra",
        OutputFormat::Mp4 => match job.container {
            Container::Mp4 => "mp4",
            Container::Mkv => "mkv",
        },
    };
    name.append(ext);
    Some(join_path(dir.as_str(), name.as_str()))
}

// ---------------------------------------------------------------------------
// Choosing the last PNG frame
// ---------------------------------------------------------------------------

/// Strict lexicographic order of texts by code point (the byte order of their UTF-8).
pub open spec fn lex_lt(a: Seq<char>, b: Seq<char>) -> bool
    decreases a.len(),
{
    if a.len() == 0 {
        b.len() > 0
    } else if b.len() == 0 {
        false
    } else if a[0] != b[0] {
        a[0] < b[0]
    } else {
        lex_lt(a.drop_first(), b.drop_first())
    }
}

proof fn lemma_lex_trans(a: Seq<char>, b: Seq<char>, c: Seq<char>)
    requires
        lex_lt(a, b),
        lex_lt(b, c),
    ensures
        lex_lt(a, c),
    decreases a.len(),
{
    if a.len() > 0 && b.len() > 0 && c.len() > 0 && a[0] == b[0] && b[0] == c[0] {
        lemma_lex_trans(a.drop_first(), b.drop_first(), c.drop_first());
    }
}

proof fn lemma_lex_total(a: Seq<char>, b: Seq<char>)
    ensures
        lex_lt(a, b) || lex_lt(b, a) || a == b,
    decreases a.len(),
{
    if a.len() > 0 && b.len() > 0 && a[0] == b[0] {
        lemma_lex_total(a.drop_first(), b.drop_first());
        if a.drop_first() == b.drop_first() {
            assert(a =~= seq![a[0]] + a.drop_first());
            assert(b =~= seq![b[0]] + b.drop_first());
        }
    } else if a.len() == 0 && b.len() == 0 {
        assert(a =~= b);
    }
}

proof fn lemma_lex_irrefl(a: Seq<char>)
    ensures
        !lex_lt(a, a),
    decreases a.len(),
{
    if a.len() > 0 {
        lemma_lex_irrefl(a.drop_first());
    }
}

/// A frame file name: it starts with `frame` and its extension is exactly `png`.
pub open spec fn is_frame_png(name: Seq<char>) -> bool {
    &&& crate::text::occurs_at(name, "frame"@, 0)
    &&& path_extension(name) == Some("png"@)
}

/// Index of the lexicographically largest `frame*.png` name (frame numbers are
/// zero-padded, so this is the last frame); the first of equal names.
pub open spec fn last_png_spec(names: Seq<String>, i: int) -> bool {
    &&& 0 <= i < names.len()
    &&& is_frame_png(names[i]@)
    &&& forall|j: int| 0 <= j < i && is_frame_png(#[trigger] names[j]@) ==> lex_lt(names[j]@, names[i]@)
    &&& forall|j: int| i < j < names.len() && is_frame_png(#[trigger] names[j]@) ==> !lex_lt(names[i]@, names[j]@)
}

/// Whether `a` sorts strictly before `b`.
fn lex_lt_exec(a: &Vec<char>, b: &Vec<char>) -> (r: bool)
    ensures
        r == lex_lt(a@, b@),
{
    let mut i: usize = 0;
    assert(a@.skip(0) =~= a@);
    assert(b@.skip(0) =~= b@);
    while i < a.len() && i < b.len() && a[i] == b[i]
        invariant
            i <= a.len(),
            i <= b.len(),
            lex_lt(a@, b@) == lex_lt(a@.skip(i as int), b@.skip(i as int)),
        decreases a.len() - i,
    {
        proof {
            assert(a@.skip(i as int).drop_first() =~= a@.skip(i + 1));
            assert(b@.skip(i as int).drop_first() =~= b@.skip(i + 1));
        }
        i = i + 1;
    }
    if i == a.len() {
        i < b.len()
    } else if i == b.len() {
        false
    } else {
        a[i] < b[i]
    }
}

/// Whether `name` is a frame file name.
fn is_frame_png_exec(name: &str) -> (r: bool)
    ensures
        r == is_frame_png(name@),
{
    let c = chars_of(name);
    let prefix = chars_of("frame");
    if c.len() < prefix.len() || !crate::text::chars_occur_at(&c, &prefix, 0) {
        return false;
    }
    match crate::snapshot::extension_of(name) {
        Some(e) => crate::text::chars_eq_str(&chars_of(e.as_str()), "png"),
        None => false,
    }
}

/// Pick the lexicographically largest `frame*.png` name among directory entries.
pub fn last_png(names: &Vec<String>) -> (r: Option<usize>)
    ensures
        r matches Some(i) ==> last_png_spec(names@, i as int),
        r is None ==> forall|j: int| 0 <= j < names.len() ==> !is_frame_png(#[trigger] names@[j]@),
{
    let mut best: Option<usize> = None;
    let mut best_chars: Vec<char> = Vec::new();
    let mut k: usize = 0;
    while k < names.len()
        invariant
            k <= names.len(),
            best is None ==> forall|j: int| 0 <= j < k ==> !is_frame_png(#[trigger] names@[j]@),
            best matches Some(i) ==> ({
                &&& i < k
                &&& best_chars@ == names@[i as int]@
                &&& is_frame_png(names@[i as int]@)
                &&& forall|j: int| 0 <= j < i && is_frame_png(#[trigger] names@[j]@) ==> lex_lt(names@[j]@, names@[i as int]@)
                &&& forall|j: int| i < j < k && is_frame_png(#[trigger] names@[j]@) ==> !lex_lt(names@[i as int]@, names@[j]@)
            }),
        decreases names.len() - k,
    {
        let name = &names[k];
        if is_frame_png_exec(name.as_str()) {
            let c = chars_of(name.as_str());
            let take = match best {
                None => true,
                Some(_) => lex_lt_exec(&best_chars, &c),
            };
            if take {
                proof {
                    if let Some(i) = best {
                        assert forall|j: int| 0 <= j < k && is_frame_png(#[trigger] names@[j]@) implies lex_lt(names@[j]@, names@[k as int]@) by {
                            let bi = names@[i as int]@;
                            if j < i {
                                lemma_lex_trans(names@[j]@, bi, c@);
                            } else if j == i {
                            } else {
                                lemma_lex_total(bi, names@[j]@);
                                if lex_lt(names@[j]@, bi) {
                                    lemma_lex_trans(names@[j]@, bi, c@);
                                }
                            }
                        }
                    }
                }
                best = Some(k);
                best_chars = c;
            }
        }
        k = k + 1;
    }
    best
}

// ---------------------------------------------------------------------------
// Steps
// ---------------------------------------------------------------------------

/// Message of the overwrite refusal; it names the authorizing variable.
pub open spec fn refusal_reason() -> Seq<char> {
    "baseline overwrite refused: set RENDER_FORCE_UPDATE_BASELINES=1 to allow it"@
}

/// Message when a PNG run left no frames.
pub open spec fn no_png_message() -> Seq<char> {
    "snapshot: no PNG files in output dir"@
}

/// The file work a snapshot pass asks for.
#[derive(Debug, Clone, PartialEq, Eq)]
pub enum SnapshotStep {
    /// Nothing to do; the outcome is final.
    Done(SnapshotOutcome),
    /// Copy the current output over the baseline at `baseline`.
    Update { baseline: String },
    /// Compare the current output against the baseline at `baseline`.
    Compare { baseline: String },
}

/// The step `evaluate` decides on.
pub open spec fn step_ok(job: RenderJob, update_authorized: bool, step: SnapshotStep) -> bool {
    match baseline_path_spec(job) {
        None => step == SnapshotStep::Done(SnapshotOutcome::Skipped),
        Some(p) => if job.update_baselines {
            if update_authorized {
                step matches SnapshotStep::Update { baseline } && baseline@ == p
            } else {
                step matches SnapshotStep::Done(SnapshotOutcome::Refused { path, reason }) && path@ == p
                    && reason@ == refusal_reason()
            }
        } else {
            step matches SnapshotStep::Compare { baseline } && baseline@ == p
        },
    }
}

/// Decide the snapshot step for a job: skip without a baseline directory, overwrite
/// the baseline when asked and authorized (refuse when not authorized), else compare.
pub fn evaluate(job: &RenderJob, update_authorized: bool) -> (r: SnapshotStep)
    ensures
        step_ok(*job, update_authorized, r),
{
    let baseline = match baseline_path_for(job) {
        Some(b) => b,
        None => {
            return SnapshotStep::Done(SnapshotOutcome::Skipped);
        },
    };
    if job.update_baselines {
        if update_authorized {
            SnapshotStep::Update { baseline }
        } else {
            SnapshotStep::Done(
                SnapshotOutcome::Refused {
                    path: baseline,
                    reason: str_string(
                        "baseline overwrite refused: set RENDER_FORCE_UPDATE_BASELINES=1 to allow it",
                    ),
                },
            )
        }
    } else {
        SnapshotStep::Compare { baseline }
    }
}

/// An authorized baseline update followed by a compare matches. When a job asking for
/// a baseline update is evaluated with the overwrite authorized, the step copies the
/// current output to the baseline path; the same job without the update flag is then
/// compared against that same path; and once the baseline holds the bytes that were
/// written, the compare finds no mismatch (so `finish_update` reports `Updated` and
/// `finish_compare` then `Matched`). A PNG baseline whose bytes do not decode to 8-bit
/// pixels is left out: its compare reports an I/O error.
pub proof fn law_update_then_compare_matches(
    job: RenderJob,
    update: SnapshotStep,
    authorized_later: bool,
    check: SnapshotStep,
    current_path: Seq<char>,
    written: Vec<u8>,
    read_back: Vec<u8>,
    verdict: Result<(), SnapshotMismatch>,
)
    requires
        job.update_baselines,
        job.baseline_dir is Some,
        step_ok(job, true, update),
        step_ok(RenderJob { update_baselines: false, ..job }, authorized_later, check),
        read_back@ == written@,
        compare_verdict(
            verdict,
            current_path,
            baseline_path_spec(job).unwrap(),
            true,
            Ok(written),
            Ok(read_back),
        ),
        !is_png_path(baseline_path_spec(job).unwrap()) || png_rgba(written@) is Some,
    ensures
        update matches SnapshotStep::Update { baseline } && baseline@ == baseline_path_spec(job).unwrap(),
        check matches SnapshotStep::Compare { baseline } && baseline@ == baseline_path_spec(job).unwrap(),
        verdict is Ok,
{
    let later = RenderJob { update_baselines: false, ..job };
    assert(scenario_spec(later) == scenario_spec(job));
    assert(baseline_path_spec(later) == baseline_path_spec(job));
}

/// Outcome of an overwrite: the read of the current output and the write of the
/// baseline, each with its error text.
pub fn finish_update(baseline: String, read: Result<(), String>, write: Result<(), String>) -> (r:
    SnapshotOutcome)
    ensures
        read matches Err(e) ==> (r matches SnapshotOutcome::Mismatched { path, reason } && path
            == baseline && reason@ == "read current: "@ + e@),
        read is Ok ==> (write matches Err(e) ==> (r matches SnapshotOutcome::Mismatched {
            path,
            reason,
        } && path == baseline && reason@ == "write baseline: "@ + e@)),
        read is Ok && write is Ok ==> (r == SnapshotOutcome::Updated { path: baseline }),
{
    if let Err(e) = read {
        let mut reason = str_string("read current: ");
        reason.append(e.as_str());
        return SnapshotOutcome::Mismatched { path: baseline, reason };
    }
    if let Err(e) = write {
        let mut reason = str_string("write baseline: ");
        reason.append(e.as_str());
        return SnapshotOutcome::Mismatched { path: baseline, reason };
    }
    SnapshotOutcome::Updated { path: baseline }
}

/// Outcome of a compare.
pub fn finish_compare(baseline: String, result: Result<(), SnapshotMismatch>) -> (r: SnapshotOutcome)
    ensures
        result is Ok ==> (r == SnapshotOutcome::Matched { path: baseline }),
        result matches Err(SnapshotMismatch::MissingBaseline(_)) ==> (r
            == SnapshotOutcome::MissingBaseline { path: baseline }),
        result matches Err(e) ==> (!(e is MissingBaseline) ==> (r matches SnapshotOutcome::Mismatched {
            path,
            reason,
        } && path == baseline && reason@ == mismatch_text(e))),
{
    match result {
        Ok(()) => SnapshotOutcome::Matched { path: baseline },
        Err(SnapshotMismatch::MissingBaseline(_)) => SnapshotOutcome::MissingBaseline { path: baseline },
        Err(e) => SnapshotOutcome::Mismatched { path: baseline, reason: e.message() },
    }
}

/// The file a snapshot pass compares, given the names in the output directory (used for
/// PNG runs): `None` when the job asks for no snapshot, the largest `frame*.png` file for PNG
/// runs, the output file otherwise.
pub fn run_snapshot(job: &RenderJob, dir_names: &Vec<String>) -> (r: Result<Option<String>, RenderError>)
    ensures
        !job.snapshot_last_only || job.baseline_dir is None ==> (r == Ok::<
            Option<String>,
            RenderError,
        >(None)),
        job.snapshot_last_only && job.baseline_dir is Some && job.format != OutputFormat::Png ==> (r
            == Ok::<Option<String>, RenderError>(Some(job.output))),
        job.snapshot_last_only && job.baseline_dir is Some && job.format == OutputFormat::Png ==> (
        match r {
            Ok(Some(p)) => exists|i: int|
                last_png_spec(dir_names@, i) && p@ == join_spec(job.output@, dir_names@[i]@),
            Ok(None) => false,
            Err(e) => e@ == RenderErrorView::Job(no_png_message()) && forall|j: int|
                0 <= j < dir_names.len() ==> !is_frame_png(#[trigger] dir_names@[j]@),
        }),
{
    if !job.snapshot_last_only || job.baseline_dir.is_none() {
        return Ok(None);
    }
    match job.format {
        OutputFormat::Png => match last_png(dir_names) {
            Some(i) => {
                let p = join_path(job.output.as_str(), dir_names[i].as_str());
                assert(last_png_spec(dir_names@, i as int));
                Ok(Some(p))
            },
            None => Err(RenderError::Job(str_string("snapshot: no PNG files in output dir"))),
        },
        _ => Ok(Some(job.output.clone())),
    }
}

} // verus!
