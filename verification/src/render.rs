//! The renderer behind the background compute handoff: turns raw RGBA
//! pixels into PNG bytes and resolves an artifact slot with the result.

use crate::handoff::{ArtifactSlot, lemma_state_partition};
use image::ImageEncoder;
use vstd::prelude::*;

verus! {

/// The PNG encoding of `w`×`h` RGBA8 pixels; a function of the pixel data
/// alone.
pub uninterp spec fn png_of(pixels: Seq<u8>, w: u32, h: u32) -> Seq<u8>;

#[verifier::external_type_specification]
#[verifier::external_body]
pub struct ExImageError(image::ImageError);

/// Relies on image's PNG encoder (`PngEncoder::new` writing into a byte
/// vector, `write_image` encoding): encodes `w`×`h` RGBA8 pixels, 4 bytes
/// each, into PNG bytes, a deterministic function of the pixel data;
/// `write_image` panics on a buffer of any other length, which the
/// precondition rules out. Writing into a vector cannot fail, and the
/// encoder rejects only images with a zero dimension, so encoding a
/// non-empty image succeeds.
#[verifier::external_body]
fn encode_png_rgba(pixels: &Vec<u8>, w: u32, h: u32) -> (r: Result<Vec<u8>, image::ImageError>)
    requires
        pixels@.len() == 4 * (w as int) * (h as int),
    ensures
        r matches Ok(bytes) ==> bytes@ == png_of(pixels@, w, h),
        w >= 1 && h >= 1 ==> r is Ok,
{
    let mut out = Vec::new();
    let encoder = image::codecs::png::PngEncoder::new(&mut out);
    match encoder.write_image(pixels, w, h, image::ExtendedColorType::Rgba8) {
        Ok(()) => Ok(out),
        Err(e) => Err(e),
    }
}

/// Why a page asset could not be produced.
#[derive(Clone, Copy, PartialEq, Eq, Structural, Debug)]
pub enum RenderError {
    /// The encoder rejected the image.
    Encoding,
    /// The pixel buffer does not hold `w`×`h` RGBA8 pixels.
    WrongBufferSize,
}

/// Encodes `w`×`h` RGBA8 pixels as PNG. A buffer of the wrong size is
/// rejected rather than handed to the encoder, which would panic on it;
/// a well-sized, non-empty image always encodes.
pub fn render_png(pixels: &Vec<u8>, w: u32, h: u32) -> (r: Result<Vec<u8>, RenderError>)
    ensures
        r matches Ok(bytes) ==> pixels@.len() == 4 * (w as int) * (h as int) && bytes@ == png_of(
            pixels@,
            w,
            h,
        ),
        pixels@.len() != 4 * (w as int) * (h as int) ==> r === Err(RenderError::WrongBufferSize),
        pixels@.len() == 4 * (w as int) * (h as int) && 4 * (w as int) * (h as int) <= u64::MAX
            && w >= 1 && h >= 1 ==> r is Ok,
{
    let expected = match (4u64.checked_mul(w as u64)) {
        Some(p) => match p.checked_mul(h as u64) {
            Some(q) => q,
            None => {
                return Err(RenderError::WrongBufferSize);
            },
        },
        None => {
            return Err(RenderError::WrongBufferSize);
        },
    };
    if pixels.len() as u64 != expected {
        return Err(RenderError::WrongBufferSize);
    }
    match encode_png_rgba(pixels, w, h) {
        Ok(bytes) => Ok(bytes),
        Err(_) => Err(RenderError::Encoding),
    }
}

/// The producer of the background handoff: computes the PNG for the page
/// the slot was created for and writes the slot exactly once — with the
/// bytes for every well-sized, non-empty image, as failed otherwise.
/// Either way the slot leaves the pending state, so a consumer never waits
/// forever.
pub fn produce_png(slot: &mut ArtifactSlot, pixels: &Vec<u8>, w: u32, h: u32)
    requires
        old(slot).is_pending(),
    ensures
        final(slot).spec_for_index() == old(slot).spec_for_index(),
        final(slot).is_ready() || final(slot).is_failed(),
        final(slot).is_ready() ==> final(slot).spec_content() == png_of(pixels@, w, h),
        pixels@.len() != 4 * (w as int) * (h as int) ==> final(slot).is_failed(),
        pixels@.len() == 4 * (w as int) * (h as int) && 4 * (w as int) * (h as int) <= u64::MAX
            && w >= 1 && h >= 1 ==> final(slot).is_ready(),
{
    match render_png(pixels, w, h) {
        Ok(bytes) => slot.resolve(bytes),
        Err(_) => slot.fail(),
    }
    proof {
        lemma_state_partition(*slot);
    }
}

} // verus!
