//! Trusted boundary to the `image` crate: serializing the finished canvas
//! bytes to a PNG stream.

use vstd::prelude::*;

verus! {

/// The `image` crate's error type, carried through opaquely.
#[verifier::external_type_specification]
#[verifier::external_body]
pub struct ExImageError(image::ImageError);

/// The PNG stream the `image` crate produces for a raster of the given
/// dimensions and flat RGBA bytes. The encoder is deterministic, so the
/// stream is a function of the dimensions and bytes alone; its exact shape
/// is the PNG format and is not restated here.
pub uninterp spec fn png_bytes_of(width: int, height: int, rgba: Seq<u8>) -> Seq<u8>;

/// Relies on `image::codecs::png::PngEncoder::new` and
/// `ImageEncoder::write_image`: with color type `Rgba8` and a buffer of
/// exactly `width * height * 4` bytes, the call returns the deterministic
/// PNG encoding of that raster. On any other buffer length `write_image`
/// panics, which the precondition rules out. For non-zero dimensions the
/// call succeeds: the remaining failure paths in the encoder are zero
/// dimensions, color types PNG cannot hold (`Rgba8` is not one), and
/// writer errors, and writes to an in-memory `Vec` cannot fail.
#[verifier::external_body]
pub(crate) fn encode_rgba_png(width: u32, height: u32, rgba: &Vec<u8>) -> (r: Result<
    Vec<u8>,
    image::ImageError,
>)
    requires
        rgba@.len() == (width as int) * (height as int) * 4,
    ensures
        width > 0 && height > 0 ==> r is Ok,
        r matches Ok(b) ==> b@ == png_bytes_of(width as int, height as int, rgba@),
{
    let mut out: Vec<u8> = Vec::new();
    let encoder = image::codecs::png::PngEncoder::new(&mut out);
    match image::ImageEncoder::write_image(
        encoder,
        rgba.as_slice(),
        width,
        height,
        image::ExtendedColorType::Rgba8,
    ) {
        Ok(()) => Ok(out),
        Err(e) => Err(e),
    }
}

} // verus!
