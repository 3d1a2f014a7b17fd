//! Decoding of encoded image bytes into a tightly packed RGBA8 bitmap.
//!
//! The byte-level format work is done by the `image` crate; this module
//! pins down what the library relies on: decoding is a function of the
//! input bytes alone, and a successful decode yields a buffer of exactly
//! `width * height * 4` bytes.

use vstd::prelude::*;
use crate::bitmap::Image;

verus! {

/// What decoding a byte string yields: `None` where the bytes are not a
/// readable image, otherwise the width, height and tightly packed RGBA8
/// pixels.  Decoding depends on the input bytes alone.
pub uninterp spec fn decoded_rgba_of(data: Seq<u8>) -> Option<(u32, u32, Seq<u8>)>;

/// Relies on `image::load_from_memory` and `image::DynamicImage::to_rgba8`:
/// the guessed-format decode is deterministic in the input bytes, and the
/// RGBA8 buffer that comes back holds exactly `width * height * 4` bytes
/// (the `image::ImageBuffer` length invariant).
#[verifier::external_body]
fn decode_rgba(data: &[u8]) -> (r: Result<(u32, u32, Vec<u8>), String>)
    ensures
        r is Ok <==> decoded_rgba_of(data@) is Some,
        r matches Ok((w, h, px)) ==> decoded_rgba_of(data@) == Some((w, h, px@)) && px@.len() == w
            * h * 4,
{
    match image::load_from_memory(data) {
        Ok(decoded) => {
            let rgba = decoded.to_rgba8();
            let (width, height) = rgba.dimensions();
            Ok((width, height, rgba.into_raw()))
        },
        Err(e) => Err(format!("Failed to decode image: {}", e)),
    }
}

/// Decoder facade for encoded image bytes.
pub struct ImageDecoder;

impl ImageDecoder {
    /// Decode encoded image bytes (PNG, JPEG, WebP, BMP) into an RGBA8
    /// bitmap.  Succeeds exactly on byte strings that are a readable
    /// image.
    pub fn decode(data: &[u8]) -> (r: Result<Image, String>)
        ensures
            r is Ok <==> decoded_rgba_of(data@) is Some,
            r matches Ok(img) ==> {
                &&& decoded_rgba_of(data@) == Some((img.width, img.height, img.data@))
                &&& img.wf()
                &&& img.format == ImageFormat::Rgba8
            },
    {
        match decode_rgba(data) {
            Ok((width, height, pixels)) => {
                let format = Self::detect_format(&pixels);
                Ok(Image { data: pixels, width, height, format })
            },
            Err(e) => Err(e),
        }
    }

    /// Report the pixel format of a decoded buffer.  The decoder always
    /// hands out tightly packed RGBA8, whatever the source format was.
    pub fn detect_format(_data: &[u8]) -> (r: ImageFormat)
        ensures
            r == ImageFormat::Rgba8,
    {
        ImageFormat::Rgba8
    }
}

/// The source or storage format of an image.
#[derive(Clone, Copy, Debug, PartialEq, Eq, Structural)]
pub enum ImageFormat {
    Jpeg,
    Png,
    WebP,
    Rgba8,
}

impl ImageFormat {
    /// The MIME type advertised for this format.
    pub open spec fn mime_type_spec(self) -> Seq<char> {
        match self {
            ImageFormat::Jpeg => "image/jpeg"@,
            ImageFormat::Png => "image/png"@,
            ImageFormat::WebP => "image/webp"@,
            ImageFormat::Rgba8 => "image/rgba"@,
        }
    }

    /// The MIME type advertised for this format.
    pub fn mime_type(&self) -> (r: &'static str)
        ensures
            r@ == self.mime_type_spec(),
    {
        match self {
            ImageFormat::Jpeg => "image/jpeg",
            ImageFormat::Png => "image/png",
            ImageFormat::WebP => "image/webp",
            ImageFormat::Rgba8 => "image/rgba",
        }
    }

    /// The file extension used for this format.
    pub open spec fn extension_spec(self) -> Seq<char> {
        match self {
            ImageFormat::Jpeg => "jpg"@,
            ImageFormat::Png => "png"@,
            ImageFormat::WebP => "webp"@,
            ImageFormat::Rgba8 => "rgba"@,
        }
    }

    /// The file extension used for this format.
    pub fn extension(&self) -> (r: &'static str)
        ensures
            r@ == self.extension_spec(),
    {
        match self {
            ImageFormat::Jpeg => "jpg",
            ImageFormat::Png => "png",
            ImageFormat::WebP => "webp",
            ImageFormat::Rgba8 => "rgba",
        }
    }
}

} // verus!
