//! The per-pixel color transform of the full-screen pass, pinned down
//! exactly so that behavior is reproducible across implementations.
//!
//! For each pixel the pass applies, in this fixed order: saturation
//! about the pixel's luminance, contrast about the middle gray, then
//! brightness, and finally clamps each color channel to its range;
//! the alpha channel passes through unmodified.  The arithmetic is
//! exact fixed point: channels count in units of one thousandth of an
//! 8-bit step, so the neutral parameters reproduce every input exactly.
//! This is the reference the device shader program must match.

use vstd::prelude::*;
use vstd::arithmetic::div_mod::{lemma_div_is_ordered, lemma_mod_multiples_basic};
use crate::bitmap::Image;
use crate::params::AdjustmentParams;

verus! {

/// A pixel's luminance in thousandths of an 8-bit step:
/// `1000 * (0.299 R + 0.587 G + 0.114 B)`.
pub open spec fn luminance_num(r: int, g: int, b: int) -> int {
    299 * r + 587 * g + 114 * b
}

/// One channel through the transform chain, in exact fixed point.
/// `c` is the channel value (0 to 255), `lum` the pixel's luminance in
/// thousandths.  Saturation blends the channel with the luminance;
/// contrast scales about the middle gray (127.5, held as 127500000 at
/// the 10^6 scale of that stage); brightness offsets by up to a full
/// unit (255 at the 10^9 scale); the result is clamped to the channel
/// range and rounded to the nearest 8-bit step.
pub open spec fn shade_channel_spec(c: int, lum: int, p: AdjustmentParams) -> int {
    let n1 = (1000 - p.saturation) * lum + 1000 * p.saturation * c;
    let n2 = 127500000000 + p.contrast * (n1 - 127500000);
    let n3 = n2 + 255000000 * p.brightness;
    let held = if n3 < 0 {
        0
    } else if n3 > 255000000000 {
        255000000000
    } else {
        n3
    };
    (held + 500000000) / 1000000000
}

/// Byte `j` of the transformed pixel buffer: color channels go through
/// the transform chain with their own pixel's luminance, every fourth
/// byte (alpha) passes through.
pub open spec fn shaded_byte(data: Seq<u8>, p: AdjustmentParams, j: int) -> u8 {
    let q = 4 * (j / 4);
    if j % 4 == 3 {
        data[j]
    } else {
        shade_channel_spec(
            data[j] as int,
            luminance_num(data[q] as int, data[q + 1] as int, data[q + 2] as int),
            p,
        ) as u8
    }
}

/// With the default parameters — no brightness offset, neutral contrast
/// and saturation — the transform chain reproduces every channel value
/// exactly, whatever the pixel's luminance.
pub proof fn lemma_neutral_shade_is_identity(c: int, lum: int)
    requires
        0 <= c <= 255,
    ensures
        shade_channel_spec(c, lum, AdjustmentParams::default_spec()) == c,
{
    let p = AdjustmentParams::default_spec();
    assert((1000 - p.saturation) * lum == 0) by (nonlinear_arith)
        requires
            p.saturation == 1000,
    ;
    assert(1000 * p.saturation * c == 1000000 * c);
    vstd::arithmetic::div_mod::lemma_div_multiples_vanish_fancy(c, 500000000, 1000000000);
    assert((1000000000 * c + 500000000) / 1000000000 == c);
}

/// The intermediate stages of the transform stay far inside 64 bits.
proof fn lemma_shade_bounds(c: int, lum: int, s: int, k: int, b: int)
    requires
        0 <= c <= 255,
        0 <= lum <= 255000,
        0 <= s <= 2000,
        0 <= k <= 2000,
        -1000 <= b <= 1000,
    ensures
        -255000000 <= (1000 - s) * lum <= 255000000,
        0 <= 1000 * s <= 2000000,
        0 <= (1000 * s) * c <= 510000000,
        -300000000 <= (1000 - s) * lum + (1000 * s) * c <= 800000000,
        forall|n1: int|
            -300000000 <= n1 <= 800000000 ==> -900000000000 <= #[trigger] (k * (n1 - 127500000))
                <= 1400000000000,
{
    assert(-255000000 <= (1000 - s) * lum <= 255000000 && 0 <= (1000 * s) * c <= 510000000)
        by (nonlinear_arith)
        requires
            0 <= c <= 255,
            0 <= lum <= 255000,
            0 <= s <= 2000,
    ;
    assert forall|n1: int| -300000000 <= n1 <= 800000000 implies -900000000000 <= #[trigger] (k
        * (n1 - 127500000)) <= 1400000000000 by {
        assert(-855000000000 <= k * (n1 - 127500000) <= 1345000000000) by (nonlinear_arith)
            requires
                0 <= k <= 2000,
                -300000000 <= n1 <= 800000000,
        ;
    }
}

/// One color channel through the transform chain.
pub fn shade_channel(c: u8, lum: i64, params: &AdjustmentParams) -> (r: u8)
    requires
        params.wf(),
        0 <= lum <= 255000,
    ensures
        r == shade_channel_spec(c as int, lum as int, *params),
{
    let s: i64 = params.saturation as i64;
    let k: i64 = params.contrast as i64;
    let b: i64 = params.brightness as i64;
    proof {
        lemma_shade_bounds(c as int, lum as int, s as int, k as int, b as int);
    }
    let n1: i64 = (1000 - s) * lum + 1000 * s * (c as i64);
    let n2: i64 = 127500000000 + k * (n1 - 127500000);
    let n3: i64 = n2 + 255000000 * b;
    let held: i64 = if n3 < 0 {
        0
    } else if n3 > 255000000000 {
        255000000000
    } else {
        n3
    };
    let q: u64 = ((held as u64) + 500000000) / 1000000000;
    proof {
        lemma_div_is_ordered((held + 500000000) as int, 255500000000, 1000000000);
    }
    q as u8
}

/// One pixel through the pass: the three color channels transformed
/// with the pixel's luminance, alpha passed through.
pub fn shade_pixel(r: u8, g: u8, b: u8, a: u8, params: &AdjustmentParams) -> (out: (u8, u8, u8, u8))
    requires
        params.wf(),
    ensures
        out.0 == shade_channel_spec(r as int, luminance_num(r as int, g as int, b as int), *params),
        out.1 == shade_channel_spec(g as int, luminance_num(r as int, g as int, b as int), *params),
        out.2 == shade_channel_spec(b as int, luminance_num(r as int, g as int, b as int), *params),
        out.3 == a,
{
    let lum: i64 = 299 * (r as i64) + 587 * (g as i64) + 114 * (b as i64);
    let cr = shade_channel(r, lum, params);
    let cg = shade_channel(g, lum, params);
    let cb = shade_channel(b, lum, params);
    (cr, cg, cb, a)
}

/// A whole image through the pass, pixel by pixel: the host-side
/// reference of what one executed full-screen draw leaves in the render
/// target.
pub fn shade_image(image: &Image, params: &AdjustmentParams) -> (out: Image)
    requires
        image.wf(),
        params.wf(),
    ensures
        out.width == image.width,
        out.height == image.height,
        out.format == image.format,
        out.wf(),
        out.data@.len() == image.data@.len(),
        forall|j: int|
            0 <= j < image.data@.len() ==> out.data@[j] == shaded_byte(image.data@, *params, j),
{
    let len = image.data.len();
    proof {
        lemma_mod_multiples_basic((image.width * image.height) as int, 4);
    }
    let mut data: Vec<u8> = Vec::new();
    let mut base: usize = 0;
    while base < len
        invariant
            image.wf(),
            params.wf(),
            len == image.data@.len(),
            len % 4 == 0,
            base % 4 == 0,
            base <= len,
            data@.len() == base,
            forall|j: int| 0 <= j < base ==> data@[j] == shaded_byte(image.data@, *params, j),
        decreases len - base,
    {
        let r = image.data[base];
        let g = image.data[base + 1];
        let b = image.data[base + 2];
        let a = image.data[base + 3];
        let (cr, cg, cb, ca) = shade_pixel(r, g, b, a, params);
        data.push(cr);
        data.push(cg);
        data.push(cb);
        data.push(ca);
        proof {
            let ghost bs = base as int;
            assert(4 * (bs / 4) == bs && 4 * ((bs + 1) / 4) == bs && 4 * ((bs + 2) / 4) == bs && 4
                * ((bs + 3) / 4) == bs);
            assert(bs % 4 == 0 && (bs + 1) % 4 == 1 && (bs + 2) % 4 == 2 && (bs + 3) % 4 == 3);
        }
        base = base + 4;
    }
    Image { data, width: image.width, height: image.height, format: image.format }
}

} // verus!
