//! Snapshot baselines for last-frame comparison.
//!
//! Raw BGRA outputs are compared byte for byte; PNG outputs are decoded first (two
//! encoders may write different zlib streams for identical pixels, but always decode
//! to the same pixels). File access is done by the caller, which hands the bytes in.
use vstd::prelude::*;
use crate::text::{
    append_chars, chars_of, chars_eq_str, decimal, decimal_chars, hex_fixed, hex_fixed_chars,
    lower, lower_chars, str_string,
};

verus! {

/// Snapshot mismatch reason.
#[derive(Debug, Clone, PartialEq, Eq)]
pub enum SnapshotMismatch {
    /// No baseline file at the path.
    MissingBaseline(String),
    /// Baseline and current differ in length.
    LengthMismatch { baseline: usize, current: usize },
    /// First differing byte.
    PixelMismatch { byte_offset: usize, baseline: u8, current: u8 },
    /// Reading or decoding `path` failed.
    Io { path: String, message: String },
}

/// Outcome of a snapshot compare (or update) pass.
#[derive(Debug, Clone, PartialEq, Eq)]
pub enum SnapshotOutcome {
    /// No baseline configured; nothing to do.
    Skipped,
    /// Baseline overwrite was asked for and authorized; the baseline was rewritten.
    Updated { path: String },
    /// Compare passed (raw or PNG-decoded).
    Matched { path: String },
    /// Compare failed; carries the reason.
    Mismatched { path: String, reason: String },
    /// Baseline file missing.
    MissingBaseline { path: String },
    /// Baseline overwrite was asked for without authorization; nothing was written.
    Refused { path: String, reason: String },
}

/// Name of the environment switch that authorizes baseline overwrites.
pub const FORCE_UPDATE_VAR: &'static str = "RENDER_FORCE_UPDATE_BASELINES";

// ---------------------------------------------------------------------------
// Trusted: PNG decoding and path extensions
// ---------------------------------------------------------------------------

/// Sample layout of a decoded PNG frame.
#[derive(Debug, Clone, Copy, PartialEq, Eq, Structural)]
pub enum PixelLayout {
    Gray,
    GrayAlpha,
    Rgb,
    Rgba,
    Indexed,
}

/// The layout of a PNG colour type code (0 grey, 2 RGB, 3 palette, 4 grey with alpha,
/// 6 RGBA).
pub open spec fn layout_code(code: u8) -> Option<PixelLayout> {
    if code == 0 {
        Some(PixelLayout::Gray)
    } else if code == 2 {
        Some(PixelLayout::Rgb)
    } else if code == 3 {
        Some(PixelLayout::Indexed)
    } else if code == 4 {
        Some(PixelLayout::GrayAlpha)
    } else if code == 6 {
        Some(PixelLayout::Rgba)
    } else {
        None
    }
}

fn layout_of_code(code: u8) -> (r: Option<PixelLayout>)
    ensures
        r == layout_code(code),
{
    if code == 0 {
        Some(PixelLayout::Gray)
    } else if code == 2 {
        Some(PixelLayout::Rgb)
    } else if code == 3 {
        Some(PixelLayout::Indexed)
    } else if code == 4 {
        Some(PixelLayout::GrayAlpha)
    } else if code == 6 {
        Some(PixelLayout::Rgba)
    } else {
        None
    }
}

/// What the `png` crate decodes from `bytes` when asked to expand palettes, low bit
/// depths and transparency and to add an alpha channel (`EXPAND | ALPHA`) and to strip
/// 16-bit samples (`STRIP_16`): the output colour type code, the bits per sample and
/// the samples of the first frame; `None` when the bytes do not decode.
pub uninterp spec fn png_decoded(bytes: Seq<u8>) -> Option<(u8, u8, Seq<u8>)>;

/// Decodes the first frame of a PNG file with the `png` crate (`Decoder::new`,
/// `set_transformations` with `EXPAND | ALPHA | STRIP_16`, `read_info`,
/// `output_buffer_size`, `next_frame`, `OutputInfo::buffer_size`), with the output
/// colour type and bit depth as their PNG codes. The contract claims only that the
/// outcome is a function of the bytes; the error text is the crate's and is not stated.
#[verifier::external_body]
fn decode_png(bytes: &[u8]) -> (r: Result<(u8, u8, Vec<u8>), String>)
    ensures
        r matches Ok(d) ==> png_decoded(bytes@) == Some((d.0, d.1, d.2@)),
        r is Err ==> png_decoded(bytes@) is None,
{
    let mut decoder = png::Decoder::new(bytes);
    let t = png::Transformations::EXPAND | png::Transformations::ALPHA | png::Transformations::STRIP_16;
    decoder.set_transformations(t);
    let mut reader = decoder.read_info().map_err(|e| e.to_string())?;
    let mut buf = vec![0u8; reader.output_buffer_size()];
    let info = reader.next_frame(&mut buf).map_err(|e| e.to_string())?;
    buf.truncate(info.buffer_size());
    Ok((info.color_type as u8, info.bit_depth as u8, buf))
}

/// Samples per pixel of an 8-bit layout that can be expanded to RGBA.
pub open spec fn channels(l: PixelLayout) -> nat {
    match l {
        PixelLayout::Gray => 1,
        PixelLayout::GrayAlpha => 2,
        PixelLayout::Rgb => 3,
        PixelLayout::Rgba => 4,
        PixelLayout::Indexed => 1,
    }
}

/// Byte `k` (0 red, 1 green, 2 blue, 3 alpha) of pixel `p` of `s`, as RGBA: grey is
/// copied to the three colours, a missing alpha is opaque.
pub open spec fn rgba_byte(l: PixelLayout, s: Seq<u8>, p: int, k: int) -> u8 {
    match l {
        PixelLayout::Gray => if k < 3 { s[p] } else { 255 },
        PixelLayout::GrayAlpha => if k < 3 { s[2 * p] } else { s[2 * p + 1] },
        PixelLayout::Rgb => if k < 3 { s[3 * p + k] } else { 255 },
        _ => s[4 * p + k],
    }
}

/// 8-bit samples of layout `l` as RGBA8, or `None` for a palette, another depth or a
/// buffer of partial pixels.
pub open spec fn rgba8_of(l: PixelLayout, depth: u8, s: Seq<u8>) -> Option<Seq<u8>> {
    if depth != 8 || l == PixelLayout::Indexed || s.len() % channels(l) != 0 {
        None
    } else {
        Some(Seq::new((s.len() / channels(l)) * 4, |i: int| rgba_byte(l, s, i / 4, i % 4)))
    }
}

/// The RGBA8 pixels of a PNG file, when it decodes to 8-bit grey or colour.
pub open spec fn png_rgba(bytes: Seq<u8>) -> Option<Seq<u8>> {
    match png_decoded(bytes) {
        Some(d) => match layout_code(d.0) {
            Some(l) => rgba8_of(l, d.1, d.2),
            None => None,
        },
        None => None,
    }
}

proof fn lemma_pixel_index(p: int, k: int)
    requires
        0 <= p,
        0 <= k < 4,
    ensures
        (4 * p + k) / 4 == p,
        (4 * p + k) % 4 == k,
{
    vstd::arithmetic::div_mod::lemma_fundamental_div_mod_converse(4 * p + k, 4, p, k);
}

proof fn lemma_pixel_fits(p: int, n: int, c: int)
    requires
        0 <= p < n,
        1 <= c,
    ensures
        p * c + c <= n * c,
        0 <= p * c,
{
    assert(p * c + c <= n * c) by (nonlinear_arith)
        requires
            p + 1 <= n,
            1 <= c,
    ;
    assert(0 <= p * c) by (nonlinear_arith)
        requires
            0 <= p,
            1 <= c,
    ;
}

/// Expand decoded samples to RGBA8.
pub fn expand_to_rgba8(l: PixelLayout, depth: u8, s: &Vec<u8>) -> (r: Option<Vec<u8>>)
    ensures
        match r {
            Some(v) => rgba8_of(l, depth, s@) == Some(v@),
            None => rgba8_of(l, depth, s@) is None,
        },
{
    let ch: usize = match l {
        PixelLayout::Gray => 1,
        PixelLayout::GrayAlpha => 2,
        PixelLayout::Rgb => 3,
        PixelLayout::Rgba => 4,
        PixelLayout::Indexed => 1,
    };
    if depth != 8 || l == PixelLayout::Indexed || s.len() % ch != 0 {
        return None;
    }
    let n = s.len() / ch;
    proof {
        let len = s@.len() as int;
        let c = ch as int;
        vstd::arithmetic::div_mod::lemma_fundamental_div_mod(len, c);
        assert(n * c == len) by (nonlinear_arith)
            requires
                len % c == 0,
                len == c * (len / c) + len % c,
                n as int == len / c,
        ;
    }
    let total: usize = s.len();
    let ghost want = Seq::new((s@.len() / channels(l)) * 4, |i: int| rgba_byte(l, s@, i / 4, i % 4));
    let mut v: Vec<u8> = Vec::new();
    let mut p: usize = 0;
    while p < n
        invariant
            ch == channels(l),
            1 <= ch <= 4,
            l != PixelLayout::Indexed,
            n * ch == s@.len(),
            total == s@.len(),
            n as int == (s@.len() as int) / (ch as int),
            p <= n,
            v@.len() == 4 * p,
            want.len() == 4 * n,
            want == Seq::new((s@.len() / channels(l)) * 4, |i: int| rgba_byte(l, s@, i / 4, i % 4)),
            forall|j: int| 0 <= j < v@.len() ==> #[trigger] v@[j] == want[j],
        decreases n - p,
    {
        proof {
            lemma_pixel_fits(p as int, n as int, ch as int);
        }
        let base = p * ch;
        assert(base + ch <= s@.len());
        let px: [u8; 4] = match l {
            PixelLayout::Gray => [s[base], s[base], s[base], 255],
            PixelLayout::GrayAlpha => [s[base], s[base], s[base], s[base + 1]],
            PixelLayout::Rgb => [s[base], s[base + 1], s[base + 2], 255],
            _ => [s[base], s[base + 1], s[base + 2], s[base + 3]],
        };
        let ghost old_v = v@;
        v.push(px[0]);
        v.push(px[1]);
        v.push(px[2]);
        v.push(px[3]);
        proof {
            assert forall|k: int| 0 <= k < 4 implies #[trigger] want[4 * p + k] == px[k] by {
                lemma_pixel_index(p as int, k);
                assert(want[4 * p + k] == rgba_byte(l, s@, p as int, k));
            }
            assert forall|j: int| 0 <= j < v@.len() implies #[trigger] v@[j] == want[j] by {
                if j >= 4 * p {
                    assert(want[4 * p + (j - 4 * p)] == px[j - 4 * p]);
                } else {
                    assert(v@[j] == old_v[j]);
                }
            }
        }
        p = p + 1;
    }
    assert(v@ =~= want);
    Some(v)
}

/// `Path::extension` of the path `p`, as text.
pub uninterp spec fn path_extension(p: Seq<char>) -> Option<Seq<char>>;

/// `std::path::Path::extension` on a text path: the part of the file name after its last
/// dot. The contract claims only that the answer is a function of the path.
#[verifier::external_body]
pub(crate) fn extension_of(p: &str) -> (r: Option<String>)
    ensures
        r matches Some(e) ==> path_extension(p@) == Some(e@),
        r is None ==> path_extension(p@) is None,
{
    match std::path::Path::new(p).extension() {
        Some(e) => e.to_str().map(String::from),
        None => None,
    }
}

// ---------------------------------------------------------------------------
// Byte comparison
// ---------------------------------------------------------------------------

/// `r` is the verdict of comparing `current` against `baseline` byte for byte.
pub open spec fn bytes_verdict(r: Result<(), SnapshotMismatch>, current: Seq<u8>, baseline: Seq<u8>) -> bool {
    if current.len() != baseline.len() {
        r == Err::<(), SnapshotMismatch>(
            SnapshotMismatch::LengthMismatch {
                baseline: baseline.len() as usize,
                current: current.len() as usize,
            },
        )
    } else if current == baseline {
        r is Ok
    } else {
        r matches Err(SnapshotMismatch::PixelMismatch { byte_offset, baseline: b, current: c }) && {
            &&& byte_offset < current.len()
            &&& current[byte_offset as int] == c
            &&& baseline[byte_offset as int] == b
            &&& c != b
            &&& forall|j: int| 0 <= j < byte_offset ==> current[j] == baseline[j]
        }
    }
}

/// Compare two byte buffers: lengths first, then the first differing byte.
pub fn compare_bytes(current: &Vec<u8>, baseline: &Vec<u8>) -> (r: Result<(), SnapshotMismatch>)
    ensures
        bytes_verdict(r, current@, baseline@),
{
    if current.len() != baseline.len() {
        return Err(
            SnapshotMismatch::LengthMismatch { baseline: baseline.len(), current: current.len() },
        );
    }
    let mut i: usize = 0;
    while i < current.len()
        invariant
            current.len() == baseline.len(),
            i <= current.len(),
            forall|j: int| 0 <= j < i ==> current@[j] == baseline@[j],
        decreases current.len() - i,
    {
        if current[i] != baseline[i] {
            return Err(
                SnapshotMismatch::PixelMismatch {
                    byte_offset: i,
                    baseline: baseline[i],
                    current: current[i],
                },
            );
        }
        i = i + 1;
    }
    assert(current@ =~= baseline@);
    Ok(())
}

/// The baseline is compared as PNG pixels: its extension is `png` in any ASCII case.
pub open spec fn is_png_path(p: Seq<char>) -> bool {
    path_extension(p) matches Some(e) && lower(e) == "png"@
}

/// `r` reports an I/O failure on `path` with message `message`.
pub open spec fn io_error_on(r: Result<(), SnapshotMismatch>, path: Seq<char>) -> bool {
    r matches Err(SnapshotMismatch::Io { path: p, message }) && p@ == path
}

/// `r` is the verdict of comparing a current output against its baseline:
/// `baseline_is_file` says whether the baseline exists, `current` and `baseline` are the
/// files' contents or the read error. A missing baseline comes first, then a read error
/// (current file first); PNG baselines (by extension) are compared as their RGBA8
/// pixels, anything else byte for byte.
pub open spec fn compare_verdict(
    r: Result<(), SnapshotMismatch>,
    current_path: Seq<char>,
    baseline_path: Seq<char>,
    baseline_is_file: bool,
    current: Result<Vec<u8>, String>,
    baseline: Result<Vec<u8>, String>,
) -> bool {
    if !baseline_is_file {
        r matches Err(SnapshotMismatch::MissingBaseline(p)) && p@ == baseline_path
    } else if current is Err {
        r matches Err(SnapshotMismatch::Io { path, message }) && path@ == current_path && message
            == current->Err_0
    } else if baseline is Err {
        r matches Err(SnapshotMismatch::Io { path, message }) && path@ == baseline_path && message
            == baseline->Err_0
    } else {
        let c = current->Ok_0@;
        let b = baseline->Ok_0@;
        if is_png_path(baseline_path) {
            match (png_rgba(c), png_rgba(b)) {
                (None, _) => io_error_on(r, current_path),
                (Some(_), None) => io_error_on(r, baseline_path),
                (Some(dc), Some(db)) => bytes_verdict(r, dc, db),
            }
        } else {
            bytes_verdict(r, c, b)
        }
    }
}

/// The RGBA8 pixels of a PNG file, or why there are none.
fn png_pixels(bytes: &[u8]) -> (r: Result<Vec<u8>, String>)
    ensures
        match r {
            Ok(v) => png_rgba(bytes@) == Some(v@),
            Err(_) => png_rgba(bytes@) is None,
        },
{
    match decode_png(bytes) {
        Ok(d) => {
            let expanded = match layout_of_code(d.0) {
                Some(l) => expand_to_rgba8(l, d.1, &d.2),
                None => None,
            };
            match expanded {
                Some(v) => Ok(v),
                None => Err(str_string("decoded PNG is not 8-bit grey or colour")),
            }
        },
        Err(m) => Err(m),
    }
}

/// Compare a current output against its baseline. `baseline_is_file` says whether the
/// baseline exists; `current` and `baseline` are the files' contents or the read error.
/// PNG baselines (by extension) are compared as their RGBA8 pixels (so files that encode
/// the same pixels differently match), anything else byte for byte.
pub fn compare(
    current_path: &str,
    baseline_path: &str,
    baseline_is_file: bool,
    current: Result<Vec<u8>, String>,
    baseline: Result<Vec<u8>, String>,
) -> (r: Result<(), SnapshotMismatch>)
    ensures
        compare_verdict(r, current_path@, baseline_path@, baseline_is_file, current, baseline),
{
    if !baseline_is_file {
        return Err(SnapshotMismatch::MissingBaseline(str_string(baseline_path)));
    }
    let png = match extension_of(baseline_path) {
        Some(e) => {
            let l = lower_chars(&chars_of(e.as_str()));
            chars_eq_str(&l, "png")
        },
        None => false,
    };
    let cur = match current {
        Ok(v) => v,
        Err(m) => {
            return Err(SnapshotMismatch::Io { path: str_string(current_path), message: m });
        },
    };
    let base = match baseline {
        Ok(v) => v,
        Err(m) => {
            return Err(SnapshotMismatch::Io { path: str_string(baseline_path), message: m });
        },
    };
    if png {
        let dc = match png_pixels(cur.as_slice()) {
            Ok(v) => v,
            Err(m) => {
                return Err(SnapshotMismatch::Io { path: str_string(current_path), message: m });
            },
        };
        let db = match png_pixels(base.as_slice()) {
            Ok(v) => v,
            Err(m) => {
                return Err(SnapshotMismatch::Io { path: str_string(baseline_path), message: m });
            },
        };
        return compare_bytes(&dc, &db);
    }
    compare_bytes(&cur, &base)
}

// ---------------------------------------------------------------------------
// Messages
// ---------------------------------------------------------------------------

/// `{:#04x}` of a byte: `0x` and two lowercase hex digits.
pub open spec fn byte_hex(b: u8) -> Seq<char> {
    "0x"@ + hex_fixed(b as nat, 2)
}

/// Text of a mismatch, as its diagnostics print it.
pub open spec fn mismatch_text(m: SnapshotMismatch) -> Seq<char> {
    match m {
        SnapshotMismatch::MissingBaseline(p) => "baseline missing at "@ + p@
            + " (run with --update-baselines to seed)"@,
        SnapshotMismatch::LengthMismatch { baseline, current } => "baseline length "@ + decimal(
            baseline as nat,
        ) + " != current length "@ + decimal(current as nat),
        SnapshotMismatch::PixelMismatch { byte_offset, baseline, current } => "pixel mismatch at byte "@
            + decimal(byte_offset as nat) + ": baseline "@ + byte_hex(baseline) + " vs current "@
            + byte_hex(current),
        SnapshotMismatch::Io { path, message } => "snapshot io error on "@ + path@ + ": "@ + message@,
    }
}

fn push_byte_hex(s: &mut String, b: u8)
    ensures
        final(s)@ == old(s)@ + byte_hex(b),
{
    s.append("0x");
    let h = hex_fixed_chars(b as u64, 2);
    append_chars(s, &h);
    assert(final(s)@ =~= old(s)@ + byte_hex(b));
}

impl SnapshotMismatch {
    /// Human-readable reason.
    pub fn message(&self) -> (r: String)
        ensures
            r@ == mismatch_text(*self),
    {
        match self {
            SnapshotMismatch::MissingBaseline(p) => {
                let mut s = str_string("baseline missing at ");
                s.append(p.as_str());
                s.append(" (run with --update-baselines to seed)");
                s
            },
            SnapshotMismatch::LengthMismatch { baseline, current } => {
                let mut s = str_string("baseline length ");
                append_chars(&mut s, &decimal_chars(*baseline as u64));
                s.append(" != current length ");
                append_chars(&mut s, &decimal_chars(*current as u64));
                s
            },
            SnapshotMismatch::PixelMismatch { byte_offset, baseline, current } => {
                let mut s = str_string("pixel mismatch at byte ");
                append_chars(&mut s, &decimal_chars(*byte_offset as u64));
                s.append(": baseline ");
                push_byte_hex(&mut s, *baseline);
                s.append(" vs current ");
                push_byte_hex(&mut s, *current);
                s
            },
            SnapshotMismatch::Io { path, message } => {
                let mut s = str_string("snapshot io error on ");
                s.append(path.as_str());
                s.append(": ");
                s.append(message.as_str());
                s
            },
        }
    }
}

} // verus!
