//! The host-side bitmap: a tightly packed RGBA8 pixel buffer with its
//! dimensions, and the configuration used when exporting it.

use vstd::prelude::*;
use crate::decode::{decoded_rgba_of, ImageDecoder, ImageFormat};
use crate::params::clamped;
use crate::size::ImageSize;

verus! {

/// A decoded image: `width * height` pixels, four bytes per pixel
/// (RGBA, 8 bits per channel), rows packed tightly in row-major order.
#[derive(Clone, Debug)]
pub struct Image {
    pub data: Vec<u8>,
    pub width: u32,
    pub height: u32,
    pub format: ImageFormat,
}

impl Image {
    /// The pixel buffer holds exactly four bytes for every pixel.
    pub open spec fn wf(self) -> bool {
        self.data@.len() == self.width * self.height * 4
    }

    /// Decode encoded image bytes into a bitmap.  Succeeds exactly on
    /// byte strings that are a readable image.
    pub fn from_bytes(data: &[u8]) -> (r: Result<Image, String>)
        ensures
            r is Ok <==> decoded_rgba_of(data@) is Some,
            r matches Ok(img) ==> {
                &&& decoded_rgba_of(data@) == Some((img.width, img.height, img.data@))
                &&& img.wf()
                &&& img.format == ImageFormat::Rgba8
            },
    {
        ImageDecoder::decode(data)
    }

    /// Create a blank (all-zero) image of the given dimensions.
    pub fn new(width: u32, height: u32, format: ImageFormat) -> (r: Image)
        requires
            width * height * 4 <= u32::MAX,
        ensures
            r.width == width,
            r.height == height,
            r.format == format,
            r.wf(),
            forall|i: int| 0 <= i < r.data@.len() ==> r.data@[i] == 0u8,
    {
        proof {
            assert(width * height * 4 <= u32::MAX ==> width * height <= u32::MAX && (width
                * height) * 4 == width * height * 4) by (nonlinear_arith);
        }
        let size = (width * height * 4) as usize;
        let data = zeroed_bytes(size);
        Image { data, width, height, format }
    }

    /// The image's extents.
    pub fn size(&self) -> (r: ImageSize)
        ensures
            r.width == self.width,
            r.height == self.height,
    {
        ImageSize::new(self.width, self.height)
    }

    /// The number of pixels.
    pub fn pixel_count(&self) -> (r: usize)
        requires
            self.wf(),
        ensures
            r == self.width * self.height,
    {
        proof {
            lemma_quads(self.width * self.height, 4);
        }
        self.data.len() / 4
    }

    /// The size of the pixel buffer in bytes.
    pub fn data_size(&self) -> (r: usize)
        ensures
            r == self.data@.len(),
    {
        self.data.len()
    }
}

/// A buffer of `len` zero bytes.
fn zeroed_bytes(len: usize) -> (r: Vec<u8>)
    ensures
        r@.len() == len,
        forall|i: int| 0 <= i < len ==> r@[i] == 0u8,
{
    let mut out: Vec<u8> = Vec::new();
    let mut i: usize = 0;
    while i < len
        invariant
            i <= len,
            out@.len() == i,
            forall|j: int| 0 <= j < i ==> out@[j] == 0u8,
        decreases len - i,
    {
        out.push(0u8);
        i = i + 1;
    }
    out
}

/// `(n * d) / d == n` for a positive divisor.
proof fn lemma_quads(n: int, d: int)
    requires
        n >= 0,
        d > 0,
    ensures
        (n * d) / d == n,
{
    vstd::arithmetic::div_mod::lemma_div_by_multiple(n, d);
}

/// How an image is to be exported: the target format and, where the
/// format is lossy, the quality on a 0 to 100 scale.
#[derive(Clone, Copy, Debug, PartialEq, Eq, Structural)]
pub struct ExportConfig {
    pub format: ImageFormat,
    pub quality: u8,
}

impl Default for ExportConfig {
    /// JPEG at quality 90.
    fn default() -> (r: ExportConfig)
        ensures
            r.format == ImageFormat::Jpeg,
            r.quality == 90,
    {
        ExportConfig { format: ImageFormat::Jpeg, quality: 90 }
    }
}

impl ExportConfig {
    /// JPEG export at the given quality, clamped to 0 to 100.
    pub fn jpeg(quality: u8) -> (r: ExportConfig)
        ensures
            r.format == ImageFormat::Jpeg,
            r.quality == clamped(quality as int, 0, 100),
    {
        ExportConfig { format: ImageFormat::Jpeg, quality: clamp_quality(quality) }
    }

    /// Lossless PNG export.
    pub fn png() -> (r: ExportConfig)
        ensures
            r.format == ImageFormat::Png,
            r.quality == 100,
    {
        ExportConfig { format: ImageFormat::Png, quality: 100 }
    }

    /// WebP export at the given quality, clamped to 0 to 100.
    pub fn webp(quality: u8) -> (r: ExportConfig)
        ensures
            r.format == ImageFormat::WebP,
            r.quality == clamped(quality as int, 0, 100),
    {
        ExportConfig { format: ImageFormat::WebP, quality: clamp_quality(quality) }
    }
}

/// Hold a quality value to the 0 to 100 scale.
fn clamp_quality(quality: u8) -> (r: u8)
    ensures
        r == clamped(quality as int, 0, 100),
{
    if quality > 100 {
        100
    } else {
        quality
    }
}

} // verus!
