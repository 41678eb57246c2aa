//! Encode back ends, encoder discovery and the ffmpeg argument lists.
use vstd::prelude::*;
use crate::error::{RenderError, RenderErrorView};
use crate::text::{
    all_digits, chars_of, contains, contains_exec, decimal, decimal_chars, decimal_string,
    digits_value, is_ws, is_ws_exec, lemma_decimal_len_at_least_four, lemma_decimal_props,
    lemma_zeros_then_digits, occurs_at, str_string, append_chars,
};

verus! {

/// Software AV1 encoders (CPU), preferred order.
pub const SW_AV1_CANDIDATES: [&'static str; 3] = ["libsvtav1", "libaom-av1", "librav1e"];

/// Hardware AV1 encoders that accept CPU-fed frames (VAAPI needs hwupload and is skipped).
pub const HW_AV1_CANDIDATES: [&'static str; 3] = ["av1_nvenc", "av1_qsv", "av1_amf"];

/// H.264 software encoder (libx264 is universally available).
pub const SW_H264_CANDIDATES: [&'static str; 1] = ["libx264"];

/// H.264 hardware encoders (NVENC/QSV/AMF), in preference order.
pub const HW_H264_CANDIDATES: [&'static str; 3] = ["h264_nvenc", "h264_qsv", "h264_amf"];

/// Every AV1 encoder name the engine knows, hardware first.
pub const AV1_CANDIDATES: [&'static str; 6] = [
    "av1_nvenc",
    "av1_qsv",
    "av1_amf",
    "libsvtav1",
    "libaom-av1",
    "librav1e",
];

/// Magic word closing the raw-stream header; its little-endian bytes spell `GBRI`.
pub const STDOUT_RAW_MAGIC: u32 = 0x4952_4247;

/// How encoded frames leave the pipeline.
#[derive(Debug, Clone, Copy, PartialEq, Eq, Structural)]
pub enum EncodeBackend {
    /// Pipe BGRA frames to ffmpeg AV1.
    FfmpegAv1,
    /// Pipe BGRA frames to ffmpeg H.264.
    FfmpegH264,
    /// Write a single raw BGRA dump (tests / no ffmpeg).
    RawDump,
    /// Stream raw BGRA + 16-byte header to stdout.
    StdoutRaw,
    /// Write one PNG per frame into the output directory.
    PngSequence,
}

/// Quality / speed knobs passed to ffmpeg.
#[derive(Debug, Clone, PartialEq, Eq)]
pub struct EncodeSettings {
    /// Quality scale 0–63 (lower = better/larger). Soft CRF / hard CQ / QP.
    pub crf: u8,
    /// Encoder preset string (SVT numeric, NVENC `p1`–`p7`, etc.).
    pub preset: Option<String>,
    /// Force a specific ffmpeg encoder name (must be installed).
    pub encoder: Option<String>,
    /// When auto-detecting, try hardware encoders before software.
    pub prefer_hw: bool,
}

impl Default for EncodeSettings {
    fn default() -> (s: Self)
        ensures
            s.crf == 35,
            s.preset is None,
            s.encoder is None,
            s.prefer_hw,
    {
        EncodeSettings { crf: 35, preset: None, encoder: None, prefer_hw: true }
    }
}

// ---------------------------------------------------------------------------
// Specifications
// ---------------------------------------------------------------------------

/// The texts of a list of owned strings.
pub open spec fn strs(v: Seq<String>) -> Seq<Seq<char>> {
    v.map_values(|s: String| s@)
}

/// The texts of a list of string slices.
pub open spec fn lits(v: Seq<&str>) -> Seq<Seq<char>> {
    v.map_values(|s: &str| s@)
}

/// The text of an optional string.
pub open spec fn opt_text(o: Option<String>) -> Option<Seq<char>> {
    match o {
        Some(s) => Some(s@),
        None => None,
    }
}

/// NVENC, QSV or AMF style hardware encoder name.
pub open spec fn is_hardware_spec(name: Seq<char>) -> bool {
    crate::text::ends_with(name, "_nvenc"@) || crate::text::ends_with(name, "_qsv"@)
        || crate::text::ends_with(name, "_amf"@)
}

/// `["-preset", p]` when a preset is set.
pub open spec fn preset_tail(flag: Seq<char>, preset: Option<Seq<char>>) -> Seq<Seq<char>> {
    match preset {
        Some(p) => seq![flag, p],
        None => seq![],
    }
}

/// Quality flags for an AV1 encoder.
pub open spec fn av1_quality_spec(encoder: Seq<char>, crf: u8, preset: Option<Seq<char>>) -> Seq<Seq<char>> {
    let q = decimal(crf as nat);
    if contains(encoder, "nvenc"@) {
        seq!["-rc"@, "vbr"@, "-cq"@, q, "-preset"@, match preset { Some(p) => p, None => "p4"@ }]
    } else if contains(encoder, "qsv"@) {
        seq!["-global_quality"@, q] + preset_tail("-preset"@, preset)
    } else if contains(encoder, "amf"@) {
        seq!["-rc"@, "cqp"@, "-qp_i"@, q, "-qp_p"@, q] + preset_tail("-quality"@, preset)
    } else {
        seq!["-crf"@, q] + preset_tail("-preset"@, preset)
    }
}

/// Quality flags for an H.264 encoder.
pub open spec fn h264_quality_spec(encoder: Seq<char>, crf: u8, preset: Option<Seq<char>>) -> Seq<Seq<char>> {
    let q = decimal(crf as nat);
    if contains(encoder, "nvenc"@) {
        seq!["-rc"@, "vbr"@, "-cq"@, q, "-preset"@, match preset { Some(p) => p, None => "p4"@ }]
    } else {
        seq!["-crf"@, q] + preset_tail("-preset"@, preset)
    }
}

/// Quality flags used only by the probe encode.
pub open spec fn probe_quality_spec(name: Seq<char>) -> Seq<Seq<char>> {
    if contains(name, "nvenc"@) {
        seq!["-rc"@, "vbr"@, "-cq"@, "40"@, "-preset"@, "p1"@]
    } else if contains(name, "qsv"@) {
        seq!["-global_quality"@, "40"@]
    } else if contains(name, "amf"@) {
        seq!["-rc"@, "cqp"@, "-qp_i"@, "40"@, "-qp_p"@, "40"@]
    } else {
        seq!["-crf"@, "40"@, "-preset"@, "12"@]
    }
}

/// Index just after the last newline before `i` (0 when there is none).
pub open spec fn line_start(text: Seq<char>, i: int) -> int
    decreases i,
{
    if i <= 0 {
        0
    } else if text[i - 1] == '\n' {
        i
    } else {
        line_start(text, i - 1)
    }
}

/// A whitespace-separated token starts at `j`.
pub open spec fn token_start(s: Seq<char>, j: int) -> bool {
    0 <= j < s.len() && !is_ws(s[j]) && (j == 0 || is_ws(s[j - 1]))
}

/// Number of whitespace-separated tokens in `s`.
pub open spec fn token_count(s: Seq<char>) -> nat
    decreases s.len(),
{
    if s.len() == 0 {
        0
    } else {
        token_count(s.drop_last()) + if token_start(s, s.len() - 1) { 1nat } else { 0nat }
    }
}

/// `name` is the second whitespace-separated token of the line holding `i`, starting at `i`.
pub open spec fn second_token_at(text: Seq<char>, name: Seq<char>, i: int) -> bool {
    &&& occurs_at(text, name, i)
    &&& i > 0
    &&& is_ws(text[i - 1])
    &&& (i + name.len() == text.len() || is_ws(text[i + name.len()]))
    &&& token_count(text.subrange(line_start(text, i), i)) == 1
}

/// Some line of `text` has `name` as its second whitespace-separated token
/// (the layout of `ffmpeg -encoders`).
pub open spec fn listed_spec(text: Seq<char>, name: Seq<char>) -> bool {
    &&& name.len() > 0
    &&& forall|k: int| 0 <= k < name.len() ==> !is_ws(#[trigger] name[k])
    &&& exists|i: int| second_token_at(text, name, i)
}

/// Candidates in the order detection tries them.
pub open spec fn detect_order(prefer_hw: bool, hw: Seq<&'static str>, sw: Seq<&'static str>) -> Seq<&'static str> {
    if prefer_hw {
        hw + sw
    } else {
        sw + hw
    }
}

/// `name` is the first candidate of `order` that is listed in `text` and whose probe
/// can pass, every earlier listed candidate's probe having failed.
pub open spec fn first_working_spec<F: Fn(&str) -> bool>(
    text: Seq<char>,
    order: Seq<&'static str>,
    probe: F,
    name: Seq<char>,
) -> bool {
    exists|i: int|
        0 <= i < order.len() && name == order[i]@ && listed_spec(text, order[i]@) && probe.ensures(
            (order[i],),
            true,
        ) && (forall|j: int|
            0 <= j < i && listed_spec(text, #[trigger] order[j]@) ==> probe.ensures((order[j],), false))
}

/// No candidate of `order` that is listed in `text` had a passing probe.
pub open spec fn none_working_spec<F: Fn(&str) -> bool>(
    text: Seq<char>,
    order: Seq<&'static str>,
    probe: F,
) -> bool {
    forall|j: int|
        0 <= j < order.len() && listed_spec(text, #[trigger] order[j]@) ==> probe.ensures(
            (order[j],),
            false,
        )
}

// ---------------------------------------------------------------------------
// Lemmas
// ---------------------------------------------------------------------------

proof fn lemma_strs_push(v: Seq<String>, s: String)
    ensures
        strs(v.push(s)) == strs(v).push(s@),
{
    assert(strs(v.push(s)) =~= strs(v).push(s@));
}

proof fn lemma_token_count_step(s: Seq<char>, m: int)
    requires
        0 <= m < s.len(),
    ensures
        token_count(s.take(m + 1)) == token_count(s.take(m)) + if token_start(s, m) {
            1nat
        } else {
            0nat
        },
{
    let t = s.take(m + 1);
    assert(t.drop_last() =~= s.take(m));
    if m > 0 {
        assert(t[m - 1] == s[m - 1]);
    }
}

// ---------------------------------------------------------------------------
// Executable functions
// ---------------------------------------------------------------------------

/// True for NVENC / QSV / AMF style hardware encoders (AV1 or H.264).
pub fn is_hardware_encoder(name: &str) -> (r: bool)
    ensures
        r == is_hardware_spec(name@),
{
    let v = chars_of(name);
    crate::text::ends_with_exec(&v, "_nvenc") || crate::text::ends_with_exec(&v, "_qsv")
        || crate::text::ends_with_exec(&v, "_amf")
}

pub(crate) fn push_lit(args: &mut Vec<String>, s: &str)
    ensures
        strs(final(args)@) == strs(old(args)@).push(s@),
{
    let t = str_string(s);
    proof {
        lemma_strs_push(args@, t);
    }
    args.push(t);
}

pub(crate) fn push_owned(args: &mut Vec<String>, t: String)
    ensures
        strs(final(args)@) == strs(old(args)@).push(t@),
{
    proof {
        lemma_strs_push(args@, t);
    }
    args.push(t);
}

fn push_preset(args: &mut Vec<String>, flag: &str, preset: &Option<String>)
    ensures
        strs(final(args)@) == strs(old(args)@) + preset_tail(flag@, opt_text(*preset)),
{
    if let Some(p) = preset {
        push_lit(args, flag);
        push_owned(args, p.clone());
        assert(strs(args@) =~= strs(old(args)@) + preset_tail(flag@, opt_text(*preset)));
    } else {
        assert(strs(args@) =~= strs(old(args)@) + preset_tail(flag@, opt_text(*preset)));
    }
}

/// Append encoder-specific AV1 quality flags after `-c:v <name>`.
pub fn push_quality_args(args: &mut Vec<String>, encoder: &str, settings: &EncodeSettings)
    ensures
        strs(final(args)@) == strs(old(args)@) + av1_quality_spec(
            encoder@,
            settings.crf,
            opt_text(settings.preset),
        ),
{
    let q = decimal_string(settings.crf as u64);
    let e = chars_of(encoder);
    let ghost start = strs(args@);
    if contains_exec(&e, "nvenc") {
        push_lit(args, "-rc");
        push_lit(args, "vbr");
        push_lit(args, "-cq");
        push_owned(args, q);
        push_lit(args, "-preset");
        match &settings.preset {
            Some(p) => push_owned(args, p.clone()),
            None => push_lit(args, "p4"),
        }
    } else if contains_exec(&e, "qsv") {
        push_lit(args, "-global_quality");
        push_owned(args, q);
        push_preset(args, "-preset", &settings.preset);
    } else if contains_exec(&e, "amf") {
        push_lit(args, "-rc");
        push_lit(args, "cqp");
        push_lit(args, "-qp_i");
        push_owned(args, q.clone());
        push_lit(args, "-qp_p");
        push_owned(args, q);
        push_preset(args, "-quality", &settings.preset);
    } else {
        push_lit(args, "-crf");
        push_owned(args, q);
        push_preset(args, "-preset", &settings.preset);
    }
    assert(strs(args@) =~= start + av1_quality_spec(encoder@, settings.crf, opt_text(settings.preset)));
}

/// Append H.264-specific quality flags after `-c:v <name>`. NVENC uses `-rc vbr -cq`;
/// the others use `-crf`.
pub fn push_h264_quality_args(args: &mut Vec<String>, encoder: &str, settings: &EncodeSettings)
    ensures
        strs(final(args)@) == strs(old(args)@) + h264_quality_spec(
            encoder@,
            settings.crf,
            opt_text(settings.preset),
        ),
{
    let q = decimal_string(settings.crf as u64);
    let e = chars_of(encoder);
    let ghost start = strs(args@);
    if contains_exec(&e, "nvenc") {
        push_lit(args, "-rc");
        push_lit(args, "vbr");
        push_lit(args, "-cq");
        push_owned(args, q);
        push_lit(args, "-preset");
        match &settings.preset {
            Some(p) => push_owned(args, p.clone()),
            None => push_lit(args, "p4"),
        }
    } else {
        push_lit(args, "-crf");
        push_owned(args, q);
        push_preset(args, "-preset", &settings.preset);
    }
    assert(strs(args@) =~= start + h264_quality_spec(encoder@, settings.crf, opt_text(settings.preset)));
}

/// Quality flags for the one-frame probe encode.
pub fn probe_quality_args(name: &str) -> (r: Vec<&'static str>)
    ensures
        lits(r@) == probe_quality_spec(name@),
{
    let e = chars_of(name);
    let mut r: Vec<&'static str> = Vec::new();
    if contains_exec(&e, "nvenc") {
        r.push("-rc");
        r.push("vbr");
        r.push("-cq");
        r.push("40");
        r.push("-preset");
        r.push("p1");
    } else if contains_exec(&e, "qsv") {
        r.push("-global_quality");
        r.push("40");
    } else if contains_exec(&e, "amf") {
        r.push("-rc");
        r.push("cqp");
        r.push("-qp_i");
        r.push("40");
        r.push("-qp_p");
        r.push("40");
    } else {
        r.push("-crf");
        r.push("40");
        r.push("-preset");
        r.push("12");
    }
    assert(lits(r@) =~= probe_quality_spec(name@));
    r
}

/// Arguments of the probe encode: one black 64x64 frame into the null muxer.
pub open spec fn probe_args_spec(name: Seq<char>) -> Seq<Seq<char>> {
    seq![
        "-hide_banner"@,
        "-loglevel"@,
        "error"@,
        "-f"@,
        "lavfi"@,
        "-i"@,
        "color=c=black:s=64x64:d=0.04"@,
        "-frames:v"@,
        "1"@,
        "-an"@,
        "-c:v"@,
        name,
    ] + probe_quality_spec(name) + seq!["-f"@, "null"@, "-"@]
}

/// The ffmpeg arguments that prove `name` can open.
pub fn probe_args(name: &str) -> (r: Vec<String>)
    ensures
        strs(r@) == probe_args_spec(name@),
{
    let mut r: Vec<String> = Vec::new();
    push_lit(&mut r, "-hide_banner");
    push_lit(&mut r, "-loglevel");
    push_lit(&mut r, "error");
    push_lit(&mut r, "-f");
    push_lit(&mut r, "lavfi");
    push_lit(&mut r, "-i");
    push_lit(&mut r, "color=c=black:s=64x64:d=0.04");
    push_lit(&mut r, "-frames:v");
    push_lit(&mut r, "1");
    push_lit(&mut r, "-an");
    push_lit(&mut r, "-c:v");
    push_lit(&mut r, name);
    let ghost head = strs(r@);
    let q = probe_quality_args(name);
    let mut i: usize = 0;
    while i < q.len()
        invariant
            i <= q.len(),
            strs(r@) == head + lits(q@).take(i as int),
        decreases q.len() - i,
    {
        push_lit(&mut r, q[i]);
        i = i + 1;
        assert(strs(r@) =~= head + lits(q@).take(i as int));
    }
    assert(lits(q@).take(i as int) =~= lits(q@));
    push_lit(&mut r, "-f");
    push_lit(&mut r, "null");
    push_lit(&mut r, "-");
    assert(strs(r@) =~= probe_args_spec(name@));
    r
}

/// Index just after the last newline before `i`.
fn line_start_exec(text: &Vec<char>, i: usize) -> (r: usize)
    requires
        i <= text.len(),
    ensures
        r as int == line_start(text@, i as int),
        r <= i,
{
    let mut j: usize = i;
    while j > 0 && text[j - 1] != '\n'
        invariant
            j <= i <= text.len(),
            line_start(text@, i as int) == line_start(text@, j as int),
        decreases j,
    {
        j = j - 1;
    }
    j
}

/// Tokens in `text[from..to]`.
fn token_count_exec(text: &Vec<char>, from: usize, to: usize) -> (r: usize)
    requires
        from <= to <= text.len(),
    ensures
        r == token_count(text@.subrange(from as int, to as int)),
{
    let ghost sub = text@.subrange(from as int, to as int);
    let mut cnt: usize = 0;
    let mut k: usize = from;
    while k < to
        invariant
            from <= k <= to <= text.len(),
            sub == text@.subrange(from as int, to as int),
            cnt <= k - from,
            cnt == token_count(sub.take(k - from)),
        decreases to - k,
    {
        proof {
            lemma_token_count_step(sub, k - from);
            if k > from {
                assert(sub[k - from - 1] == text@[k - 1]);
            }
            assert(sub[k - from] == text@[k as int]);
        }
        if !is_ws_exec(text[k]) && (k == from || is_ws_exec(text[k - 1])) {
            cnt = cnt + 1;
        }
        k = k + 1;
    }
    assert(sub.take(to - from) =~= sub);
    cnt
}

/// Whether `name` is the second token of some line of `text`.
pub fn listed_in_ffmpeg(text: &Vec<char>, name: &Vec<char>) -> (r: bool)
    ensures
        r == listed_spec(text@, name@),
{
    let n = name.len();
    if n == 0 {
        return false;
    }
    let mut k: usize = 0;
    while k < n
        invariant
            n == name.len(),
            k <= n,
            forall|m: int| 0 <= m < k ==> !is_ws(#[trigger] name@[m]),
        decreases n - k,
    {
        if is_ws_exec(name[k]) {
            return false;
        }
        k = k + 1;
    }
    if n >= text.len() {
        assert forall|i: int| !second_token_at(text@, name@, i) by {}
        return false;
    }
    let last = text.len() - n;
    let mut i: usize = 1;
    while i <= last
        invariant
            n == name.len(),
            n > 0,
            forall|m: int| 0 <= m < n ==> !is_ws(#[trigger] name@[m]),
            last + n == text.len(),
            1 <= i <= last + 1,
            forall|j: int| 0 <= j < i ==> !second_token_at(text@, name@, j),
        decreases last + 1 - i,
    {
        if is_ws_exec(text[i - 1]) && (i + n == text.len() || is_ws_exec(text[i + n]))
            && crate::text::chars_occur_at(text, name, i) {
            let ls = line_start_exec(text, i);
            if token_count_exec(text, ls, i) == 1 {
                assert(second_token_at(text@, name@, i as int));
                return true;
            }
        }
        i = i + 1;
    }
    assert forall|j: int| !second_token_at(text@, name@, j) by {
        if 0 <= j && j + n <= text.len() {
            assert(j < i);
        }
    }
    false
}

/// The first candidate of `names` listed in `text` whose probe passes.
fn first_working<F: Fn(&str) -> bool>(text: &Vec<char>, names: &[&'static str], probe: &F) -> (r:
    Option<String>)
    requires
        forall|s: &str| probe.requires((s,)),
    ensures
        r matches Some(name) ==> first_working_spec(text@, names@, *probe, name@),
        r is None ==> none_working_spec(text@, names@, *probe),
{
    let mut i: usize = 0;
    while i < names.len()
        invariant
            i <= names.len(),
            forall|s: &str| probe.requires((s,)),
            forall|j: int|
                0 <= j < i && listed_spec(text@, #[trigger] names@[j]@) ==> probe.ensures(
                    (names@[j],),
                    false,
                ),
        decreases names.len() - i,
    {
        let name = names[i];
        let nv = chars_of(name);
        if listed_in_ffmpeg(text, &nv) {
            if probe(name) {
                let s = str_string(name);
                assert(names@[i as int] == name);
                return Some(s);
            }
        }
        i = i + 1;
    }
    None
}

/// Detection over two candidate lists, in the order `prefer_hw` asks for.
fn detect_in<F: Fn(&str) -> bool>(
    text: &Vec<char>,
    prefer_hw: bool,
    hw: &[&'static str],
    sw: &[&'static str],
    probe: &F,
) -> (r: Option<String>)
    requires
        forall|s: &str| probe.requires((s,)),
    ensures
        r matches Some(name) ==> first_working_spec(
            text@,
            detect_order(prefer_hw, hw@, sw@),
            *probe,
            name@,
        ),
        r is None ==> none_working_spec(text@, detect_order(prefer_hw, hw@, sw@), *probe),
{
    let ghost order = detect_order(prefer_hw, hw@, sw@);
    let (first, second) = if prefer_hw { (hw, sw) } else { (sw, hw) };
    assert(order =~= first@ + second@);
    match first_working(text, first, probe) {
        Some(name) => {
            proof {
                let i = choose|i: int|
                    0 <= i < first@.len() && name@ == first@[i]@ && listed_spec(text@, first@[i]@)
                        && probe.ensures((first@[i],), true) && (forall|j: int|
                        0 <= j < i && listed_spec(text@, #[trigger] first@[j]@) ==> probe.ensures(
                            (first@[j],),
                            false,
                        ));
                assert(order[i] == first@[i]);
                assert forall|j: int| 0 <= j < i && listed_spec(text@, #[trigger] order[j]@) implies probe.ensures(
                    (order[j],),
                    false,
                ) by {
                    assert(order[j] == first@[j]);
                }
            }
            Some(name)
        },
        None => match first_working(text, second, probe) {
            Some(name) => {
                proof {
                    let i = choose|i: int|
                        0 <= i < second@.len() && name@ == second@[i]@ && listed_spec(
                            text@,
                            second@[i]@,
                        ) && probe.ensures((second@[i],), true) && (forall|j: int|
                            0 <= j < i && listed_spec(text@, #[trigger] second@[j]@)
                                ==> probe.ensures((second@[j],), false));
                    let k = first@.len() + i;
                    assert(order[k] == second@[i]);
                    assert forall|j: int| 0 <= j < k && listed_spec(text@, #[trigger] order[j]@) implies probe.ensures(
                        (order[j],),
                        false,
                    ) by {
                        if j < first@.len() {
                            assert(order[j] == first@[j]);
                        } else {
                            assert(order[j] == second@[j - first@.len()]);
                        }
                    }
                }
                Some(name)
            },
            None => {
                proof {
                    assert forall|j: int|
                        0 <= j < order.len() && listed_spec(text@, #[trigger] order[j]@) implies probe.ensures(
                        (order[j],),
                        false,
                    ) by {
                        if j < first@.len() {
                            assert(order[j] == first@[j]);
                        } else {
                            assert(order[j] == second@[j - first@.len()]);
                        }
                    }
                }
                None
            },
        },
    }
}

/// Message when no AV1 encoder works.
pub open spec fn no_av1_message() -> Seq<char> {
    "no working AV1 encoder (probed nvenc/qsv/amf + libsvtav1/aom/rav1e)"@
}

/// Message when no H.264 encoder works.
pub open spec fn no_h264_message() -> Seq<char> {
    "no working H.264 encoder"@
}

/// Pick an available AV1 encoder from `ffmpeg -encoders` output (hardware first when
/// `prefer_hw`). Each listed candidate is `probe`d in turn, so listed-but-broken
/// drivers (no CUDA) are skipped.
pub fn detect_av1_encoder<F: Fn(&str) -> bool>(encoders_text: &str, prefer_hw: bool, probe: &F) -> (r:
    Result<String, RenderError>)
    requires
        forall|s: &str| probe.requires((s,)),
    ensures
        r matches Ok(name) ==> first_working_spec(
            encoders_text@,
            detect_order(prefer_hw, HW_AV1_CANDIDATES@, SW_AV1_CANDIDATES@),
            *probe,
            name@,
        ),
        r matches Err(e) ==> e@ == RenderErrorView::Ffmpeg(no_av1_message()) && none_working_spec(
            encoders_text@,
            detect_order(prefer_hw, HW_AV1_CANDIDATES@, SW_AV1_CANDIDATES@),
            *probe,
        ),
{
    let text = chars_of(encoders_text);
    match detect_in(&text, prefer_hw, &HW_AV1_CANDIDATES, &SW_AV1_CANDIDATES, probe) {
        Some(name) => Ok(name),
        None => Err(
            RenderError::Ffmpeg(
                str_string("no working AV1 encoder (probed nvenc/qsv/amf + libsvtav1/aom/rav1e)"),
            ),
        ),
    }
}

/// Pick an available H.264 encoder from `ffmpeg -encoders` output (hardware first when
/// `prefer_hw`), probing each listed candidate in turn.
pub fn detect_h264_encoder<F: Fn(&str) -> bool>(encoders_text: &str, prefer_hw: bool, probe: &F) -> (r:
    Result<String, RenderError>)
    requires
        forall|s: &str| probe.requires((s,)),
    ensures
        r matches Ok(name) ==> first_working_spec(
            encoders_text@,
            detect_order(prefer_hw, HW_H264_CANDIDATES@, SW_H264_CANDIDATES@),
            *probe,
            name@,
        ),
        r matches Err(e) ==> e@ == RenderErrorView::Ffmpeg(no_h264_message()) && none_working_spec(
            encoders_text@,
            detect_order(prefer_hw, HW_H264_CANDIDATES@, SW_H264_CANDIDATES@),
            *probe,
        ),
{
    let text = chars_of(encoders_text);
    match detect_in(&text, prefer_hw, &HW_H264_CANDIDATES, &SW_H264_CANDIDATES, probe) {
        Some(name) => Ok(name),
        None => Err(RenderError::Ffmpeg(str_string("no working H.264 encoder"))),
    }
}

/// The `-s` argument: `<width>x<height>`.
pub open spec fn size_arg(width: u32, height: u32) -> Seq<char> {
    decimal(width as nat) + "x"@ + decimal(height as nat)
}

/// Arguments of the ffmpeg encode pipe, given the quality flags.
pub open spec fn pipe_args_spec(
    encoder: Seq<char>,
    width: u32,
    height: u32,
    fps: u32,
    output: Seq<char>,
    quality: Seq<Seq<char>>,
) -> Seq<Seq<char>> {
    seq![
        "-hide_banner"@,
        "-loglevel"@,
        "error"@,
        "-y"@,
        "-f"@,
        "rawvideo"@,
        "-pix_fmt"@,
        "bgra"@,
        "-s"@,
        size_arg(width, height),
        "-r"@,
        decimal(fps as nat),
        "-i"@,
        "-"@,
        "-an"@,
        "-c:v"@,
        encoder,
    ] + quality + seq!["-pix_fmt"@, "yuv420p"@, output]
}

/// Quality flags for the codec family (`av1` or H.264).
pub open spec fn quality_for(av1: bool, encoder: Seq<char>, settings: EncodeSettings) -> Seq<Seq<char>> {
    if av1 {
        av1_quality_spec(encoder, settings.crf, opt_text(settings.preset))
    } else {
        h264_quality_spec(encoder, settings.crf, opt_text(settings.preset))
    }
}

/// ffmpeg arguments that read raw BGRA frames on stdin and encode them to `output`.
pub fn ffmpeg_pipe_args(
    settings: &EncodeSettings,
    encoder: &str,
    width: u32,
    height: u32,
    fps: u32,
    output: &str,
    av1: bool,
) -> (r: Vec<String>)
    ensures
        strs(r@) == pipe_args_spec(encoder@, width, height, fps, output@, quality_for(av1, encoder@, *settings)),
{
    let mut r: Vec<String> = Vec::new();
    push_lit(&mut r, "-hide_banner");
    push_lit(&mut r, "-loglevel");
    push_lit(&mut r, "error");
    push_lit(&mut r, "-y");
    push_lit(&mut r, "-f");
    push_lit(&mut r, "rawvideo");
    push_lit(&mut r, "-pix_fmt");
    push_lit(&mut r, "bgra");
    push_lit(&mut r, "-s");
    let mut size = decimal_string(width as u64);
    size.append("x");
    let h = decimal_chars(height as u64);
    append_chars(&mut size, &h);
    push_owned(&mut r, size);
    push_lit(&mut r, "-r");
    push_owned(&mut r, decimal_string(fps as u64));
    push_lit(&mut r, "-i");
    push_lit(&mut r, "-");
    push_lit(&mut r, "-an");
    push_lit(&mut r, "-c:v");
    push_lit(&mut r, encoder);
    let ghost head = strs(r@);
    if av1 {
        push_quality_args(&mut r, encoder, settings);
    } else {
        push_h264_quality_args(&mut r, encoder, settings);
    }
    push_lit(&mut r, "-pix_fmt");
    push_lit(&mut r, "yuv420p");
    push_lit(&mut r, output);
    assert(strs(r@) =~= pipe_args_spec(encoder@, width, height, fps, output@, quality_for(av1, encoder@, *settings)));
    r
}

/// Little-endian bytes of `x`.
pub open spec fn le32(x: u32) -> Seq<u8> {
    seq![
        (x % 256) as u8,
        ((x / 256) % 256) as u8,
        ((x / 65536) % 256) as u8,
        ((x / 16777216) % 256) as u8,
    ]
}

/// The 16-byte raw-stream header: width, height, fps and the magic word, little-endian.
pub open spec fn raw_header_spec(width: u32, height: u32, fps: u32) -> Seq<u8> {
    le32(width) + le32(height) + le32(fps) + le32(STDOUT_RAW_MAGIC)
}

fn push_le32(v: &mut Vec<u8>, x: u32)
    ensures
        final(v)@ == old(v)@ + le32(x),
{
    v.push((x % 256) as u8);
    v.push(((x / 256) % 256) as u8);
    v.push(((x / 65536) % 256) as u8);
    v.push(((x / 16777216) % 256) as u8);
    assert(v@ =~= old(v)@ + le32(x));
}

/// Header that precedes raw BGRA frames on stdout.
pub fn stdout_raw_header(width: u32, height: u32, fps: u32) -> (r: Vec<u8>)
    ensures
        r@ == raw_header_spec(width, height, fps),
        r@.len() == 16,
{
    let mut r: Vec<u8> = Vec::new();
    push_le32(&mut r, width);
    push_le32(&mut r, height);
    push_le32(&mut r, fps);
    push_le32(&mut r, STDOUT_RAW_MAGIC);
    assert(r@ =~= raw_header_spec(width, height, fps));
    r
}

/// `s` left-padded with `'0'` to at least `w` characters (`{:0w}`).
pub open spec fn zero_pad(s: Seq<char>, w: nat) -> Seq<char> {
    if s.len() >= w {
        s
    } else {
        Seq::new((w - s.len()) as nat, |i: int| '0') + s
    }
}

/// File name of the `k`-th PNG frame (counting from 1): `frame0001.png`, at least four digits.
pub open spec fn frame_name_spec(k: nat) -> Seq<char> {
    "frame"@ + zero_pad(decimal(k), 4) + ".png"@
}

/// File name for the frame written after `written` earlier ones.
pub fn png_frame_name(written: u64) -> (r: String)
    requires
        written < u64::MAX,
    ensures
        r@ == frame_name_spec(written as nat + 1),
{
    let d = decimal_chars(written + 1);
    let mut r = str_string("frame");
    let mut pad: usize = 0;
    let need: usize = if d.len() >= 4 { 0 } else { 4 - d.len() };
    while pad < need
        invariant
            pad <= need,
            need == (if d@.len() >= 4 { 0 } else { 4 - d@.len() }),
            r@ == "frame"@ + Seq::new(pad as nat, |i: int| '0'),
        decreases need - pad,
    {
        crate::text::push_char(&mut r, '0');
        pad = pad + 1;
        assert(r@ =~= "frame"@ + Seq::new(pad as nat, |i: int| '0'));
    }
    append_chars(&mut r, &d);
    r.append(".png");
    assert(r@ =~= frame_name_spec(written as nat + 1));
    r
}

/// Where frames go once the encode starts.
#[derive(Debug, Clone, PartialEq, Eq)]
pub enum EncodeSink {
    /// One file holding every frame back to back.
    RawFile { path: String },
    /// Standard output, after `header`.
    Stdout { header: Vec<u8> },
    /// One PNG per frame inside `dir`.
    PngDir { dir: String },
    /// An ffmpeg child running `args`, encoding with `encoder`.
    Ffmpeg { encoder: String, args: Vec<String> },
}

/// Codec family whose encoder must be detected before encoding: `Some(true)` for AV1,
/// `Some(false)` for H.264, `None` when nothing is to be detected.
pub open spec fn detection_spec(backend: EncodeBackend, forced: bool) -> Option<bool> {
    match backend {
        EncodeBackend::FfmpegAv1 => if forced { None } else { Some(true) },
        EncodeBackend::FfmpegH264 => if forced { None } else { Some(false) },
        _ => None,
    }
}

/// Whether encoding with `backend` first needs `ffmpeg -encoders` output.
pub fn detection_needed(backend: EncodeBackend, settings: &EncodeSettings) -> (r: Option<bool>)
    ensures
        r == detection_spec(backend, settings.encoder is Some),
{
    match backend {
        EncodeBackend::FfmpegAv1 => if settings.encoder.is_some() { None } else { Some(true) },
        EncodeBackend::FfmpegH264 => if settings.encoder.is_some() { None } else { Some(false) },
        _ => None,
    }
}

/// The ffmpeg sink for `encoder`.
pub open spec fn ffmpeg_sink_ok(
    sink: EncodeSink,
    encoder: Seq<char>,
    settings: EncodeSettings,
    width: u32,
    height: u32,
    fps: u32,
    output: Seq<char>,
    av1: bool,
) -> bool {
    sink matches EncodeSink::Ffmpeg { encoder: e, args } && e@ == encoder && strs(args@)
        == pipe_args_spec(encoder, width, height, fps, output, quality_for(av1, encoder, settings))
}

/// With a detected encoder: the ffmpeg sink for the first working candidate of
/// `order`, or the error `message` when none works.
pub open spec fn detected_sink_ok<F: Fn(&str) -> bool>(
    r: Result<EncodeSink, RenderError>,
    text: Seq<char>,
    order: Seq<&'static str>,
    probe: F,
    settings: EncodeSettings,
    width: u32,
    height: u32,
    fps: u32,
    output: Seq<char>,
    av1: bool,
    message: Seq<char>,
) -> bool {
    match r {
        Ok(sink) => exists|name: Seq<char>|
            first_working_spec(text, order, probe, name) && #[trigger] ffmpeg_sink_ok(
                sink,
                name,
                settings,
                width,
                height,
                fps,
                output,
                av1,
            ),
        Err(e) => none_working_spec(text, order, probe) && e@ == RenderErrorView::Ffmpeg(message),
    }
}

/// Plan the encode of BGRA frames: where they go, and for ffmpeg back ends which
/// encoder and arguments. A forced encoder in `settings` is used as given; otherwise
/// the encoder is detected from `encoders_text` (the `ffmpeg -encoders` output) with
/// `probe`.
pub fn encode_raw_bgra_to_file<F: Fn(&str) -> bool>(
    backend: EncodeBackend,
    settings: &EncodeSettings,
    width: u32,
    height: u32,
    fps: u32,
    output: &str,
    encoders_text: &str,
    probe: &F,
) -> (r: Result<EncodeSink, RenderError>)
    requires
        forall|s: &str| probe.requires((s,)),
    ensures
        backend == EncodeBackend::RawDump ==> (r matches Ok(EncodeSink::RawFile { path }) && path@
            == output@),
        backend == EncodeBackend::StdoutRaw ==> (r matches Ok(EncodeSink::Stdout { header })
            && header@ == raw_header_spec(width, height, fps)),
        backend == EncodeBackend::PngSequence ==> (r matches Ok(EncodeSink::PngDir { dir }) && dir@
            == output@),
        backend == EncodeBackend::FfmpegAv1 ==> (match settings.encoder {
            Some(forced) => r matches Ok(sink) && ffmpeg_sink_ok(
                sink,
                forced@,
                *settings,
                width,
                height,
                fps,
                output@,
                true,
            ),
            None => detected_sink_ok(
                r,
                encoders_text@,
                detect_order(settings.prefer_hw, HW_AV1_CANDIDATES@, SW_AV1_CANDIDATES@),
                *probe,
                *settings,
                width,
                height,
                fps,
                output@,
                true,
                no_av1_message(),
            ),
        }),
        backend == EncodeBackend::FfmpegH264 ==> (match settings.encoder {
            Some(forced) => r matches Ok(sink) && ffmpeg_sink_ok(
                sink,
                forced@,
                *settings,
                width,
                height,
                fps,
                output@,
                false,
            ),
            None => detected_sink_ok(
                r,
                encoders_text@,
                detect_order(settings.prefer_hw, HW_H264_CANDIDATES@, SW_H264_CANDIDATES@),
                *probe,
                *settings,
                width,
                height,
                fps,
                output@,
                false,
                no_h264_message(),
            ),
        }),
{
    match backend {
        EncodeBackend::RawDump => Ok(EncodeSink::RawFile { path: str_string(output) }),
        EncodeBackend::StdoutRaw => Ok(EncodeSink::Stdout { header: stdout_raw_header(width, height, fps) }),
        EncodeBackend::PngSequence => Ok(EncodeSink::PngDir { dir: str_string(output) }),
        EncodeBackend::FfmpegAv1 => {
            let encoder = match &settings.encoder {
                Some(name) => name.clone(),
                None => match detect_av1_encoder(encoders_text, settings.prefer_hw, probe) {
                    Ok(name) => name,
                    Err(e) => {
                        return Err(e);
                    },
                },
            };
            let args = ffmpeg_pipe_args(settings, encoder.as_str(), width, height, fps, output, true);
            let sink = EncodeSink::Ffmpeg { encoder: encoder.clone(), args };
            assert(ffmpeg_sink_ok(sink, encoder@, *settings, width, height, fps, output@, true));
            proof {
                if settings.encoder is None {
                    let order = detect_order(settings.prefer_hw, HW_AV1_CANDIDATES@, SW_AV1_CANDIDATES@);
                    assert(first_working_spec(encoders_text@, order, *probe, encoder@));
                }
            }
            Ok(sink)
        },
        EncodeBackend::FfmpegH264 => {
            let encoder = match &settings.encoder {
                Some(name) => name.clone(),
                None => match detect_h264_encoder(encoders_text, settings.prefer_hw, probe) {
                    Ok(name) => name,
                    Err(e) => {
                        return Err(e);
                    },
                },
            };
            let args = ffmpeg_pipe_args(settings, encoder.as_str(), width, height, fps, output, false);
            let sink = EncodeSink::Ffmpeg { encoder: encoder.clone(), args };
            assert(ffmpeg_sink_ok(sink, encoder@, *settings, width, height, fps, output@, false));
            proof {
                if settings.encoder is None {
                    let order = detect_order(settings.prefer_hw, HW_H264_CANDIDATES@, SW_H264_CANDIDATES@);
                    assert(first_working_spec(encoders_text@, order, *probe, encoder@));
                }
            }
            Ok(sink)
        },
    }
}

/// An exit code as `{:?}` prints an `Option<i32>`: `Some(<code>)` or `None`.
pub open spec fn exit_code_text(code: Option<i32>) -> Seq<char> {
    match code {
        Some(c) => "Some("@ + (if c < 0 { "-"@ + decimal((-c) as nat) } else { decimal(c as nat) }) + ")"@,
        None => "None"@,
    }
}

/// Appends `exit_code_text(code)`.
pub(crate) fn append_exit_code(s: &mut String, code: Option<i32>)
    ensures
        final(s)@ == old(s)@ + exit_code_text(code),
{
    let ghost start = s@;
    match code {
        Some(c) => {
            s.append("Some(");
            if c < 0 {
                s.append("-");
                let magnitude: u64 = (0i64 - (c as i64)) as u64;
                append_chars(s, &decimal_chars(magnitude));
            } else {
                append_chars(s, &decimal_chars(c as u64));
            }
            s.append(")");
        },
        None => s.append("None"),
    }
    assert(s@ =~= start + exit_code_text(code));
}

/// The error of an ffmpeg encode that exited unsuccessfully with `code` (none when
/// killed by a signal) and printed `stderr`.
pub fn ffmpeg_exit_error(code: Option<i32>, encoder: &str, stderr: &str) -> (e: RenderError)
    ensures
        e@ == RenderErrorView::Ffmpeg(
            "exit "@ + exit_code_text(code) + " encoder="@ + encoder@ + ": "@ + stderr@,
        ),
{
    let mut m = str_string("exit ");
    append_exit_code(&mut m, code);
    m.append(" encoder=");
    m.append(encoder);
    m.append(": ");
    m.append(stderr);
    assert(m@ =~= "exit "@ + exit_code_text(code) + " encoder="@ + encoder@ + ": "@ + stderr@);
    RenderError::Ffmpeg(m)
}

/// Outcome of an encode that wrote `frames` frames: zero frames is an error.
pub fn frames_written(frames: u64) -> (r: Result<u64, RenderError>)
    ensures
        frames == 0 ==> (r matches Err(e) && e@ == RenderErrorView::EmptyOutput),
        frames > 0 ==> r == Ok::<u64, RenderError>(frames),
{
    if frames == 0 {
        Err(RenderError::EmptyOutput)
    } else {
        Ok(frames)
    }
}


/// `t` is the decimal text of `n`: a non-empty run of digits whose value is `n`.
pub open spec fn reads_as(t: Seq<char>, n: nat) -> bool {
    t.len() > 0 && all_digits(t) && digits_value(t) == n
}

/// The crf reaches every H.264 encoder. Any encoder other than NVENC gets exactly
/// `-crf <crf>`, followed by `-preset <p>` only when a preset `p` is given; NVENC gets
/// `-rc vbr -cq <crf> -preset <p>`, with `p4` when no preset is given.
pub proof fn law_h264_quality(encoder: Seq<char>, crf: u8, preset: Option<Seq<char>>)
    ensures
        ({
            let q = h264_quality_spec(encoder, crf, preset);
            &&& !contains(encoder, "nvenc"@) ==> {
                &&& q.len() == (if preset is Some { 4int } else { 2int })
                &&& q[0] == "-crf"@
                &&& reads_as(q[1], crf as nat)
                &&& (preset matches Some(p) ==> q[2] == "-preset"@ && q[3] == p)
            }
            &&& contains(encoder, "nvenc"@) ==> {
                &&& q.len() == 6
                &&& q[0] == "-rc"@ && q[1] == "vbr"@ && q[2] == "-cq"@
                &&& reads_as(q[3], crf as nat)
                &&& q[4] == "-preset"@
                &&& q[5] == (match preset { Some(p) => p, None => "p4"@ })
            }
        }),
{
    lemma_decimal_props(crf as nat);
}

/// The crf reaches every AV1 encoder, each in its own flag: NVENC `-cq <crf>`, QSV
/// `-global_quality <crf>`, AMF `-qp_i <crf> -qp_p <crf>`, any other encoder
/// `-crf <crf>`; a given preset is passed last (`-quality` for AMF, `-preset`
/// otherwise), and NVENC falls back to preset `p4`.
pub proof fn law_av1_quality(encoder: Seq<char>, crf: u8, preset: Option<Seq<char>>)
    ensures
        ({
            let q = av1_quality_spec(encoder, crf, preset);
            let nv = contains(encoder, "nvenc"@);
            let qsv = !nv && contains(encoder, "qsv"@);
            let amf = !nv && !qsv && contains(encoder, "amf"@);
            let sw = !nv && !qsv && !amf;
            &&& nv ==> q.len() == 6 && q[2] == "-cq"@ && reads_as(q[3], crf as nat) && q[4] == "-preset"@
                && q[5] == (match preset { Some(p) => p, None => "p4"@ })
            &&& qsv ==> q[0] == "-global_quality"@ && reads_as(q[1], crf as nat)
            &&& amf ==> q[0] == "-rc"@ && q[1] == "cqp"@ && q[2] == "-qp_i"@ && reads_as(q[3], crf as nat)
                && q[4] == "-qp_p"@ && reads_as(q[5], crf as nat)
            &&& sw ==> q[0] == "-crf"@ && reads_as(q[1], crf as nat)
            &&& !nv ==> (q.len() == (if amf { 6int } else { 2int }) + (if preset is Some { 2int } else { 0int }))
            &&& (!nv && preset is Some) ==> q[q.len() - 2] == (if amf { "-quality"@ } else { "-preset"@ })
                && q[q.len() - 1] == preset.unwrap()
        }),
{
    lemma_decimal_props(crf as nat);
}

/// The pipe arguments read raw BGRA frames of the given size and rate from stdin and
/// write `output` with `encoder`: `-f rawvideo -pix_fmt bgra -s <w>x<h> -r <fps> -i -`,
/// then `-an -c:v <encoder>`, the quality flags, `-pix_fmt yuv420p`, and `output` last.
pub proof fn law_pipe_args(
    encoder: Seq<char>,
    width: u32,
    height: u32,
    fps: u32,
    output: Seq<char>,
    quality: Seq<Seq<char>>,
)
    ensures
        ({
            let a = pipe_args_spec(encoder, width, height, fps, output, quality);
            &&& a.len() == quality.len() + 20
            &&& a[4] == "-f"@ && a[5] == "rawvideo"@ && a[6] == "-pix_fmt"@ && a[7] == "bgra"@
            &&& a[8] == "-s"@ && a[9] == decimal(width as nat) + "x"@ + decimal(height as nat)
            &&& a[10] == "-r"@ && reads_as(a[11], fps as nat)
            &&& a[12] == "-i"@ && a[13] == "-"@
            &&& a[15] == "-c:v"@ && a[16] == encoder
            &&& a.subrange(17, 17 + quality.len() as int) == quality
            &&& a[a.len() - 3] == "-pix_fmt"@ && a[a.len() - 2] == "yuv420p"@
            &&& a[a.len() - 1] == output
        }),
{
    lemma_decimal_props(fps as nat);
    let a = pipe_args_spec(encoder, width, height, fps, output, quality);
    assert(a.subrange(17, 17 + quality.len() as int) =~= quality);
}

/// The raw-stream header is 16 bytes: width, height and fps as little-endian 32-bit
/// numbers, then the bytes `G`, `B`, `R`, `I`.
pub proof fn law_raw_header(width: u32, height: u32, fps: u32)
    ensures
        ({
            let h = raw_header_spec(width, height, fps);
            &&& h.len() == 16
            &&& h[0] + 256 * h[1] + 65536 * h[2] + 16777216 * h[3] == width
            &&& h[4] + 256 * h[5] + 65536 * h[6] + 16777216 * h[7] == height
            &&& h[8] + 256 * h[9] + 65536 * h[10] + 16777216 * h[11] == fps
            &&& h[12] == 71 && h[13] == 66 && h[14] == 82 && h[15] == 73
        }),
{
    lemma_le32(width);
    lemma_le32(height);
    lemma_le32(fps);
    lemma_le32(STDOUT_RAW_MAGIC);
    let h = raw_header_spec(width, height, fps);
    assert(h.subrange(0, 4) =~= le32(width));
    assert(h.subrange(4, 8) =~= le32(height));
    assert(h.subrange(8, 12) =~= le32(fps));
    assert(h.subrange(12, 16) =~= le32(STDOUT_RAW_MAGIC));
    assert(le32(STDOUT_RAW_MAGIC) =~= seq![71u8, 66u8, 82u8, 73u8]);
}

/// The four bytes of `le32(x)` put back together are `x`.
proof fn lemma_le32(x: u32)
    ensures
        le32(x).len() == 4,
        le32(x)[0] + 256 * le32(x)[1] + 65536 * le32(x)[2] + 16777216 * le32(x)[3] == x,
{
    let b0 = x % 256;
    let b1 = (x / 256) % 256;
    let b2 = (x / 65536) % 256;
    let b3 = (x / 16777216) % 256;
    assert(b0 + 256 * b1 + 65536 * b2 + 16777216 * b3 == x) by (nonlinear_arith)
        requires
            b0 == x % 256,
            b1 == (x / 256) % 256,
            b2 == (x / 65536) % 256,
            b3 == (x / 16777216) % 256,
            x < 0x1_0000_0000,
    ;
    assert(le32(x)[0] == b0);
    assert(le32(x)[1] == b1);
    assert(le32(x)[2] == b2);
    assert(le32(x)[3] == b3);
}

/// The `k`-th frame file is `frame<k>.png` with `k` in decimal, padded with zeros to
/// four digits.
pub proof fn law_frame_name(k: nat)
    ensures
        ({
            let n = frame_name_spec(k);
            let digits = n.subrange(5, n.len() - 4);
            &&& n.subrange(0, 5) == "frame"@
            &&& n.subrange(n.len() - 4, n.len() as int) == ".png"@
            &&& all_digits(digits)
            &&& digits_value(digits) == k
            &&& digits.len() >= 4
            &&& (k >= 1000 ==> digits == decimal(k))
        }),
{
    reveal_strlit("frame");
    reveal_strlit(".png");
    lemma_decimal_props(k);
    let d = decimal(k);
    let z = zero_pad(d, 4);
    let n = frame_name_spec(k);
    assert(n.subrange(5, n.len() - 4) =~= z);
    assert(n.subrange(0, 5) =~= "frame"@);
    assert(n.subrange(n.len() - 4, n.len() as int) =~= ".png"@);
    if d.len() < 4 {
        let pad = Seq::new((4 - d.len()) as nat, |i: int| '0');
        lemma_zeros_then_digits(pad, d);
    }
    if k >= 1000 {
        lemma_decimal_len_at_least_four(k);
    }
}


/// Hardware encoders are the NVENC, QSV and AMF ones, named by their suffix: any name
/// ending in `_nvenc`, `_qsv` or `_amf` is hardware, and a name ending otherwise (such as
/// the software `libx264` or `libsvtav1`) is not.
pub proof fn law_hardware_names(stem: Seq<char>, name: Seq<char>)
    ensures
        is_hardware_spec(stem + "_nvenc"@),
        is_hardware_spec(stem + "_qsv"@),
        is_hardware_spec(stem + "_amf"@),
        is_hardware_spec(name) ==> (name.len() >= 4 && name[name.len() - 4] == '_') || (name.len() >= 6 && name[name.len()
            - 6] == '_'),
{
    reveal_strlit("_nvenc");
    reveal_strlit("_qsv");
    reveal_strlit("_amf");
    assert((stem + "_nvenc"@).subrange(stem.len() as int, (stem.len() + 6) as int) =~= "_nvenc"@);
    assert((stem + "_qsv"@).subrange(stem.len() as int, (stem.len() + 4) as int) =~= "_qsv"@);
    assert((stem + "_amf"@).subrange(stem.len() as int, (stem.len() + 4) as int) =~= "_amf"@);
    if crate::text::ends_with(name, "_nvenc"@) {
        assert(name.subrange(name.len() - 6, name.len() as int)[0] == '_');
    }
    if crate::text::ends_with(name, "_qsv"@) {
        assert(name.subrange(name.len() - 4, name.len() as int)[0] == '_');
    }
    if crate::text::ends_with(name, "_amf"@) {
        assert(name.subrange(name.len() - 4, name.len() as int)[0] == '_');
    }
}

/// The probe encodes one 64x64 black frame from the lavfi source with `name` at quality
/// 40 (NVENC `-cq 40` at preset `p1`, QSV `-global_quality 40`, AMF `-qp_i 40 -qp_p
/// 40`, others `-crf 40` at preset `12`) and discards the output (`-f null -`).
pub proof fn law_probe_args(name: Seq<char>)
    ensures
        ({
            let a = probe_args_spec(name);
            let q = probe_quality_spec(name);
            let nv = contains(name, "nvenc"@);
            let qsv = !nv && contains(name, "qsv"@);
            let amf = !nv && !qsv && contains(name, "amf"@);
            &&& a.len() == q.len() + 15
            &&& a[3] == "-f"@ && a[4] == "lavfi"@ && a[5] == "-i"@ && a[6] == "color=c=black:s=64x64:d=0.04"@
            &&& a[7] == "-frames:v"@ && reads_as(a[8], 1)
            &&& a[10] == "-c:v"@ && a[11] == name
            &&& a.subrange(12, 12 + q.len() as int) == q
            &&& a[a.len() - 3] == "-f"@ && a[a.len() - 2] == "null"@ && a[a.len() - 1] == "-"@
            &&& nv ==> q == seq!["-rc"@, "vbr"@, "-cq"@, decimal(40), "-preset"@, "p1"@]
            &&& qsv ==> q == seq!["-global_quality"@, decimal(40)]
            &&& amf ==> q == seq!["-rc"@, "cqp"@, "-qp_i"@, decimal(40), "-qp_p"@, decimal(40)]
            &&& (!nv && !qsv && !amf) ==> q == seq!["-crf"@, decimal(40), "-preset"@, decimal(12)]
        }),
{
    reveal_strlit("40");
    reveal_strlit("12");
    reveal_strlit("1");
    assert(decimal(40) =~= "40"@) by {
        assert(decimal(4) == seq!['4']);
    }
    assert(decimal(12) =~= "12"@) by {
        assert(decimal(1) == seq!['1']);
    }
    assert(decimal(1) =~= "1"@);
    lemma_decimal_props(1);
    let a = probe_args_spec(name);
    let q = probe_quality_spec(name);
    assert(a.subrange(12, 12 + q.len() as int) =~= q);
}

} // verus!
