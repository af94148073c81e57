//! The preview panel's decoding: PNG bytes from libvips into RGBA pixels
//! ready for a texture.

use vstd::prelude::*;

verus! {

/// Decoded preview pixels: `width` by `height`, four bytes (red, green,
/// blue, alpha) per pixel, row by row.
#[derive(Debug, Clone, PartialEq, Eq)]
pub struct DecodedImage {
    pub width: u32,
    pub height: u32,
    pub rgba: Vec<u8>,
}

/// What the `image` crate's PNG decoder makes of `png`: the dimensions and
/// RGBA bytes of the picture, or nothing when it cannot decode it.
pub uninterp spec fn png_rgba(png: Seq<u8>) -> Option<(u32, u32, Seq<u8>)>;

/// `image::load_from_memory_with_format` with the PNG format, then
/// `DynamicImage::to_rgba8`. The decoded pixels are those the crate's PNG
/// decoder gives for the bytes, which are named here and not restated; an
/// image buffer always holds at least four bytes per pixel. On failure the
/// crate's error, as text.
#[verifier::external_body]
fn decode_png_rgba(png: &[u8]) -> (r: Result<DecodedImage, String>)
    ensures
        match r {
            Ok(img) => png_rgba(png@) == Some((img.width, img.height, img.rgba@)) && img.rgba@.len()
                >= 4 * img.width * img.height,
            Err(_) => png_rgba(png@) is None,
        },
{
    match image::load_from_memory_with_format(png, image::ImageFormat::Png) {
        Ok(decoded) => {
            let rgba = decoded.to_rgba8();
            Ok(DecodedImage { width: rgba.width(), height: rgba.height(), rgba: rgba.into_raw() })
        },
        Err(e) => Err(e.to_string()),
    }
}

/// The message for a preview that cannot be decoded.
pub open spec fn decode_failure_text(reason: Seq<char>) -> Seq<char> {
    "could not decode the preview image: "@ + reason
}

/// A decoding result as the panel reports it: the pixels, or the reason
/// prefixed with what failed.
pub fn preview_pixels(decoded: Result<DecodedImage, String>) -> (r: Result<DecodedImage, String>)
    ensures
        match decoded {
            Ok(img) => r == Ok::<DecodedImage, String>(img),
            Err(reason) => r matches Err(m) && m@ == decode_failure_text(reason@),
        },
{
    match decoded {
        Ok(img) => Ok(img),
        Err(reason) => {
            let mut m = String::new();
            m.append("could not decode the preview image: ");
            m.append(reason.as_str());
            Err(m)
        },
    }
}

/// Decode PNG preview bytes into pixels. Preview bytes always come from
/// libvips as PNG.
pub fn decode_preview(png: &[u8]) -> (r: Result<DecodedImage, String>)
    ensures
        match r {
            Ok(img) => png_rgba(png@) == Some((img.width, img.height, img.rgba@)) && img.rgba@.len()
                >= 4 * img.width * img.height,
            Err(m) => png_rgba(png@) is None && exists|reason: Seq<char>| m@ == decode_failure_text(reason),
        },
{
    preview_pixels(decode_png_rgba(png))
}

} // verus!
