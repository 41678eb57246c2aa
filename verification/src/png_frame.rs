//! One rendered frame as a PNG file: BGRA pixels reordered to RGBA, then encoded by
//! the `png` crate (8-bit RGBA, the crate's default compression and filters).
use vstd::prelude::*;
use crate::error::{RenderError, RenderErrorView};
use crate::text::str_string;

verus! {

/// The eight bytes every PNG file starts with.
pub const PNG_SIGNATURE: [u8; 8] = [137, 80, 78, 71, 13, 10, 26, 10];

/// The file the `png` crate writes for an 8-bit RGBA image of `width` x `height`
/// pixels, or `None` when it refuses the image.
pub uninterp spec fn png_encoded(width: u32, height: u32, rgba: Seq<u8>) -> Option<Seq<u8>>;

/// Encodes 8-bit RGBA pixels with the `png` crate (`Encoder::new`, `set_color`,
/// `set_depth`, `write_header`, `Writer::write_image_data`, `Writer::finish`) into
/// memory. The contract claims that the outcome is a function of the arguments, that
/// a zero width or height is refused (as `Writer::init` does), and that a written file
/// starts with the PNG signature (written by `Writer::init`); the error text is the
/// crate's and is not stated.
#[verifier::external_body]
fn encode_rgba_png(width: u32, height: u32, rgba: &[u8]) -> (r: Result<Vec<u8>, String>)
    requires
        (width as int) * (height as int) * 4 <= usize::MAX,
    ensures
        r matches Ok(v) ==> png_encoded(width, height, rgba@) == Some(v@) && v@.len() >= 8
            && v@.take(8) == PNG_SIGNATURE@,
        r is Err ==> png_encoded(width, height, rgba@) is None,
        width == 0 || height == 0 ==> r is Err,
{
    let mut out: Vec<u8> = Vec::new();
    let mut enc = png::Encoder::new(&mut out, width, height);
    enc.set_color(png::ColorType::Rgba);
    enc.set_depth(png::BitDepth::Eight);
    let mut writer = enc.write_header().map_err(|e| e.to_string())?;
    writer.write_image_data(rgba).map_err(|e| e.to_string())?;
    writer.finish().map_err(|e| e.to_string())?;
    Ok(out)
}

/// BGRA bytes reordered to RGBA: the first and third byte of each whole pixel swap.
pub open spec fn rgba_of_bgra(b: Seq<u8>) -> Seq<u8> {
    Seq::new(
        b.len(),
        |i: int|
            if i % 4 == 0 && i + 2 < b.len() {
                b[i + 2]
            } else if i % 4 == 2 {
                b[i - 2]
            } else {
                b[i]
            },
    )
}

/// Reorder BGRA bytes to RGBA.
pub fn bgra_to_rgba(bgra: &[u8]) -> (r: Vec<u8>)
    ensures
        r@ == rgba_of_bgra(bgra@),
{
    let n = bgra.len();
    let mut r: Vec<u8> = Vec::new();
    let mut i: usize = 0;
    while i < n
        invariant
            n == bgra@.len(),
            i <= n,
            r@.len() == i,
            forall|j: int| 0 <= j < i ==> #[trigger] r@[j] == rgba_of_bgra(bgra@)[j],
        decreases n - i,
    {
        let b: u8 = if i % 4 == 0 && i + 2 < n {
            bgra[i + 2]
        } else if i % 4 == 2 {
            bgra[i - 2]
        } else {
            bgra[i]
        };
        r.push(b);
        i = i + 1;
    }
    assert(r@ =~= rgba_of_bgra(bgra@));
    r
}

/// Message when a frame buffer does not hold `width * height` BGRA pixels.
pub open spec fn frame_size_message() -> Seq<char> {
    "frame buffer is not width*height*4 bytes"@
}

/// A BGRA frame of `width` x `height` pixels as a PNG file. A buffer of another size is
/// refused; otherwise the outcome is the `png` crate's on the RGBA pixels.
pub fn encode_bgra_frame_to_png(width: u32, height: u32, bgra: &[u8]) -> (r: Result<Vec<u8>, RenderError>)
    ensures
        bgra@.len() != (width as int) * (height as int) * 4 ==> (r matches Err(e) && e@
            == RenderErrorView::Raster(frame_size_message())),
        bgra@.len() == (width as int) * (height as int) * 4 ==> match png_encoded(
            width,
            height,
            rgba_of_bgra(bgra@),
        ) {
            Some(f) => r matches Ok(v) && v@ == f,
            None => r matches Err(e) && e@ is Raster,
        },
{
    let w = width as u128;
    let h = height as u128;
    proof {
        assert(w * h * 4 <= 0xffff_ffffu128 * 0xffff_ffffu128 * 4) by (nonlinear_arith)
            requires
                w <= 0xffff_ffffu128,
                h <= 0xffff_ffffu128,
        ;
    }
    let total: u128 = w * h * 4;
    let fits = total == bgra.len() as u128;
    if !fits {
        return Err(RenderError::Raster(str_string("frame buffer is not width*height*4 bytes")));
    }
    let rgba = bgra_to_rgba(bgra);
    match encode_rgba_png(width, height, rgba.as_slice()) {
        Ok(v) => Ok(v),
        Err(m) => Err(RenderError::Raster(m)),
    }
}

} // verus!
