//! Decoding the tray icon pictures.

use vstd::prelude::*;

verus! {

/// A picture as RGBA pixels, eight bits per channel, row by row.
pub struct RgbaIcon {
    pub rgba: Vec<u8>,
    pub width: u32,
    pub height: u32,
}

/// Decodes `bytes` with `image::load_from_memory` and converts the picture
/// with `DynamicImage::into_rgba8`, handing back its pixel buffer
/// (`ImageBuffer::into_raw`) and size (`ImageBuffer::dimensions`).
///
/// Trusted: a decoded picture's buffer holds at least four bytes per pixel,
/// as every `ImageBuffer` is created with at least `channels * width *
/// height` samples. Which picture comes out, and whether one does, is left
/// unsaid: `load_from_memory` consults the format-detection and decoding hooks
/// that any code in the process may register with `image::hooks`, so the same
/// bytes can decode differently at different times.
#[verifier::external_body]
fn decode_rgba8(bytes: &[u8]) -> (icon: Option<RgbaIcon>)
    ensures
        icon matches Some(i) ==> i.rgba@.len() >= 4 * i.width * i.height,
{
    match image::load_from_memory(bytes) {
        Ok(picture) => {
            let picture = picture.into_rgba8();
            let (width, height) = picture.dimensions();
            Some(RgbaIcon { rgba: picture.into_raw(), width, height })
        },
        Err(_) => None,
    }
}

/// The icon that the picture file `bytes` holds, or `None` when the image
/// decoders cannot read it. A decoded icon has at least four bytes per pixel.
pub fn load_icon(bytes: &[u8]) -> (icon: Option<RgbaIcon>)
    ensures
        icon matches Some(i) ==> i.rgba@.len() >= 4 * i.width * i.height,
{
    decode_rgba8(bytes)
}

} // verus!
