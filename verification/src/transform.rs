//! Geometric transforms on the host-side bitmap: cropping a pixel
//! rectangle, resizing by nearest-neighbor sampling, and mirroring.
//! Every output pixel is pinned to the source pixel it came from.

use vstd::prelude::*;
use vstd::arithmetic::div_mod::{
    lemma_div_multiples_vanish_fancy,
    lemma_div_pos_is_pos,
    lemma_fundamental_div_mod,
    lemma_mod_division_less_than_divisor,
    lemma_mod_multiples_vanish,
    lemma_multiply_divide_lt,
    lemma_small_mod,
};
use crate::bitmap::Image;
use crate::size::{saturated_u32, ImageSize};

verus! {

/// How a resize chooses its target dimensions.
#[derive(Clone, Copy, Debug, PartialEq, Eq, Structural)]
pub enum ResizeOptions {
    /// Exactly these extents, whatever the aspect ratio.
    ExactSize { width: u32, height: u32 },
    /// The largest aspect-preserving size inside the given bounds.
    FitIn { max_width: u32, max_height: u32 },
    /// The smallest aspect-preserving size covering the given extents.
    Cover { width: u32, height: u32 },
}

/// The target extents a resize of `image` under `options` produces.
pub open spec fn resize_target(image: Image, options: ResizeOptions) -> (int, int) {
    let sw = image.width as int;
    let sh = image.height as int;
    match options {
        ResizeOptions::ExactSize { width, height } => (width as int, height as int),
        ResizeOptions::FitIn { max_width, max_height } => {
            let cw = max_width as int;
            let ch = max_height as int;
            if cw * sh <= ch * sw {
                (cw, sh * cw / sw)
            } else {
                (sw * ch / sh, ch)
            }
        },
        ResizeOptions::Cover { width, height } => {
            let cw = width as int;
            let ch = height as int;
            if cw * sh >= ch * sw {
                (cw, saturated_u32(sh * cw / sw) as int)
            } else {
                (saturated_u32(sw * ch / sh) as int, ch)
            }
        },
    }
}

/// Pixel-rectangle operations on a bitmap.
pub struct ImageTransform;

impl ImageTransform {
    /// Copy the `width` by `height` pixel rectangle whose top-left
    /// corner is `(x, y)` into a new image: output pixel `(c, r)` is
    /// source pixel `(x + c, y + r)`.
    pub fn crop(image: &Image, x: u32, y: u32, width: u32, height: u32) -> (out: Image)
        requires
            image.wf(),
            image.width >= 1,
            image.height >= 1,
            x + width <= image.width,
            y + height <= image.height,
        ensures
            out.width == width,
            out.height == height,
            out.format == image.format,
            out.wf(),
            forall|r: int, c: int, k: int|
                0 <= r < height && 0 <= c < width && 0 <= k < 4 ==> #[trigger] out.data@[(r
                    * width + c) * 4 + k] == image.data@[((y + r) * image.width + (x + c)) * 4
                    + k],
    {
        let iw = image.width;
        let ih = image.height;
        let data_len: usize = image.data.len();
        proof {
            assert(0 <= width * height && width * height <= width * height * 4 && width * height
                * 4 <= iw * ih * 4) by (nonlinear_arith)
                requires
                    0 <= width <= iw,
                    0 <= height <= ih,
            ;
            assert(iw * ih * 4 == data_len);
        }
        let count: usize = (width as usize) * (height as usize);
        let w: usize = width as usize;
        let mut data: Vec<u8> = Vec::new();
        let mut j: usize = 0;
        while j < count
            invariant
                image.wf(),
                image.data@.len() <= usize::MAX,
                iw == image.width,
                ih == image.height,
                x + width <= iw,
                y + height <= ih,
                w == width,
                count == width * height,
                count * 4 <= image.data@.len(),
                j <= count,
                data@.len() == 4 * j,
                forall|p: int, k: int|
                    0 <= p < j && 0 <= k < 4 ==> #[trigger] data@[4 * p + k] == image.data@[4 * ((
                    y + p / (width as int)) * iw + (x + p % (width as int))) + k],
            decreases count - j,
        {
            proof {
                assert(w >= 1) by (nonlinear_arith)
                    requires
                        j < count,
                        0 <= j,
                        count == w * (height as int),
                        w >= 0,
                ;
                lemma_grid_decompose(j as int, w as int, height as int);
            }
            let r: usize = j / w;
            let c: usize = j % w;
            let yy: usize = (y as usize) + r;
            let xx: usize = (x as usize) + c;
            proof {
                assert(0 <= yy * iw && yy * iw + xx <= (yy * iw + xx) * 4 && (yy * iw + xx) * 4
                    + 3 < iw * ih * 4) by (nonlinear_arith)
                    requires
                        0 <= xx < iw,
                        0 <= yy < ih,
                ;
                assert(iw * ih * 4 == image.data@.len());
            }
            let base: usize = (yy * (iw as usize) + xx) * 4;
            data.push(image.data[base]);
            data.push(image.data[base + 1]);
            data.push(image.data[base + 2]);
            data.push(image.data[base + 3]);
            j = j + 1;
        }
        proof {
            lemma_grid_ensures(
                data@,
                image.data@,
                width as int,
                height as int,
                iw as int,
                x as int,
                y as int,
            );
            assert(data@.len() == width * height * 4) by (nonlinear_arith)
                requires
                    data@.len() == 4 * (width * height),
            ;
        }
        Image { data, width, height, format: image.format }
    }

    /// Resize by nearest-neighbor sampling: output pixel `(c, r)` is
    /// source pixel `(c * width / new_width, r * height / new_height)`,
    /// the coordinates scaled and rounded down.  The target extents
    /// follow `options`.
    pub fn resize(image: &Image, options: ResizeOptions) -> (out: Image)
        requires
            image.wf(),
            image.width >= 1,
            image.height >= 1,
            resize_target(*image, options).0 * resize_target(*image, options).1 * 4 <= usize::MAX,
        ensures
            out.width == resize_target(*image, options).0,
            out.height == resize_target(*image, options).1,
            out.format == image.format,
            out.wf(),
            forall|r: int, c: int, k: int|
                0 <= r < out.height && 0 <= c < out.width && 0 <= k < 4 ==> #[trigger] out.data@[(
                    r * out.width + c) * 4 + k] == image.data@[((r * image.height / (
                out.height as int)) * image.width + (c * image.width / (out.width as int))) * 4
                    + k],
    {
        let iw = image.width;
        let ih = image.height;
        let data_len: usize = image.data.len();
        let (new_width, new_height): (u32, u32) = match options {
            ResizeOptions::ExactSize { width, height } => (width, height),
            ResizeOptions::FitIn { max_width, max_height } => {
                let t = ImageSize::new(iw, ih).fit_in(&ImageSize::new(max_width, max_height));
                (t.width, t.height)
            },
            ResizeOptions::Cover { width, height } => {
                let t = ImageSize::new(iw, ih).cover(&ImageSize::new(width, height));
                (t.width, t.height)
            },
        };
        proof {
            assert((new_width as int, new_height as int) == resize_target(*image, options));
            assert(0 <= new_width * new_height && new_width * new_height <= new_width * new_height
                * 4 && new_width * new_height * 4 == 4 * (new_width * new_height))
                by (nonlinear_arith);
        }
        let count: usize = (new_width as usize) * (new_height as usize);
        let w: usize = new_width as usize;
        let mut data: Vec<u8> = Vec::new();
        let mut j: usize = 0;
        while j < count
            invariant
                image.wf(),
                image.data@.len() <= usize::MAX,
                iw == image.width,
                ih == image.height,
                iw >= 1,
                ih >= 1,
                w == new_width,
                count == new_width * new_height,
                count * 4 <= usize::MAX,
                j <= count,
                data@.len() == 4 * j,
                forall|p: int, k: int|
                    0 <= p < j && 0 <= k < 4 ==> #[trigger] data@[4 * p + k] == image.data@[4 * ((
                    p / (new_width as int) * ih / (new_height as int)) * iw + (p % (
                    new_width as int)) * iw / (new_width as int)) + k],
            decreases count - j,
        {
            proof {
                assert(w >= 1 && new_height >= 1) by (nonlinear_arith)
                    requires
                        j < count,
                        0 <= j,
                        count == w * (new_height as int),
                        w >= 0,
                        new_height >= 0,
                ;
                lemma_grid_decompose(j as int, w as int, new_height as int);
            }
            let r: usize = j / w;
            let c: usize = j % w;
            proof {
                assert(0 <= (c as int) * iw && (c as int) * iw < (new_width as int) * iw && (
                new_width as int) * iw <= u64::MAX) by (nonlinear_arith)
                    requires
                        0 <= c < new_width,
                        new_width <= u32::MAX,
                        1 <= iw <= u32::MAX,
                ;
                lemma_multiply_divide_lt((c as int) * iw, new_width as int, iw as int);
                lemma_div_pos_is_pos((c as int) * iw, new_width as int);
                assert(0 <= (r as int) * ih && (r as int) * ih < (new_height as int) * ih && (
                new_height as int) * ih <= u64::MAX) by (nonlinear_arith)
                    requires
                        0 <= r < new_height,
                        new_height <= u32::MAX,
                        1 <= ih <= u32::MAX,
                ;
                lemma_multiply_divide_lt((r as int) * ih, new_height as int, ih as int);
                lemma_div_pos_is_pos((r as int) * ih, new_height as int);
            }
            let px: u64 = (c as u64) * (iw as u64) / (new_width as u64);
            let py: u64 = (r as u64) * (ih as u64) / (new_height as u64);
            proof {
                assert(0 <= py * iw && py * iw + px <= (py * iw + px) * 4 && (py * iw + px) * 4 + 3
                    < iw * ih * 4) by (nonlinear_arith)
                    requires
                        0 <= px < iw,
                        0 <= py < ih,
                ;
                assert(iw * ih * 4 == image.data@.len());
            }
            let base: usize = ((py as usize) * (iw as usize) + (px as usize)) * 4;
            data.push(image.data[base]);
            data.push(image.data[base + 1]);
            data.push(image.data[base + 2]);
            data.push(image.data[base + 3]);
            j = j + 1;
        }
        proof {
            lemma_sample_ensures(
                data@,
                image.data@,
                new_width as int,
                new_height as int,
                iw as int,
                ih as int,
            );
            assert(data@.len() == new_width * new_height * 4) by (nonlinear_arith)
                requires
                    data@.len() == 4 * (new_width * new_height),
            ;
        }
        Image { data, width: new_width, height: new_height, format: image.format }
    }

    /// Mirror the image: output pixel `(c, r)` is the source pixel at
    /// the horizontally and/or vertically reflected coordinate.
    pub fn flip(image: &Image, horizontal: bool, vertical: bool) -> (out: Image)
        requires
            image.wf(),
            image.width >= 1,
            image.height >= 1,
        ensures
            out.width == image.width,
            out.height == image.height,
            out.format == image.format,
            out.wf(),
            forall|r: int, c: int, k: int|
                0 <= r < image.height && 0 <= c < image.width && 0 <= k < 4 ==> #[trigger] out.data@[(
                    r * image.width + c) * 4 + k] == image.data@[((if vertical {
                    image.height - 1 - r
                } else {
                    r
                }) * image.width + (if horizontal {
                    image.width - 1 - c
                } else {
                    c
                })) * 4 + k],
    {
        let iw = image.width;
        let ih = image.height;
        let data_len: usize = image.data.len();
        proof {
            assert(0 <= iw * ih && iw * ih <= iw * ih * 4 && iw * ih * 4 == 4 * (iw * ih))
                by (nonlinear_arith);
            assert(iw * ih * 4 == data_len);
        }
        let count: usize = (iw as usize) * (ih as usize);
        let w: usize = iw as usize;
        let mut data: Vec<u8> = Vec::new();
        let mut j: usize = 0;
        while j < count
            invariant
                image.wf(),
                image.data@.len() <= usize::MAX,
                iw == image.width,
                ih == image.height,
                iw >= 1,
                ih >= 1,
                w == iw,
                count == iw * ih,
                count * 4 == image.data@.len(),
                j <= count,
                data@.len() == 4 * j,
                forall|p: int, k: int|
                    0 <= p < j && 0 <= k < 4 ==> #[trigger] data@[4 * p + k] == image.data@[4 * ((if vertical {
                        ih - 1 - p / (iw as int)
                    } else {
                        p / (iw as int)
                    }) * iw + (if horizontal {
                        iw - 1 - p % (iw as int)
                    } else {
                        p % (iw as int)
                    })) + k],
            decreases count - j,
        {
            proof {
                lemma_grid_decompose(j as int, w as int, ih as int);
            }
            let r: usize = j / w;
            let c: usize = j % w;
            let src_c: usize = if horizontal {
                (iw as usize) - 1 - c
            } else {
                c
            };
            let src_r: usize = if vertical {
                (ih as usize) - 1 - r
            } else {
                r
            };
            proof {
                assert(0 <= src_r * iw && src_r * iw + src_c <= (src_r * iw + src_c) * 4 && (src_r
                    * iw + src_c) * 4 + 3 < iw * ih * 4) by (nonlinear_arith)
                    requires
                        0 <= src_c < iw,
                        0 <= src_r < ih,
                ;
                assert(iw * ih * 4 == image.data@.len());
            }
            let base: usize = (src_r * (iw as usize) + src_c) * 4;
            data.push(image.data[base]);
            data.push(image.data[base + 1]);
            data.push(image.data[base + 2]);
            data.push(image.data[base + 3]);
            j = j + 1;
        }
        proof {
            lemma_flip_ensures(data@, image.data@, iw as int, ih as int, horizontal, vertical);
            assert(data@.len() == iw * ih * 4) by (nonlinear_arith)
                requires
                    data@.len() == 4 * (iw * ih),
            ;
        }
        Image { data, width: iw, height: ih, format: image.format }
    }
}

/// Split a pixel index into its row and column.
proof fn lemma_grid_decompose(j: int, w: int, h: int)
    requires
        0 < w,
        0 <= j < w * h,
    ensures
        0 <= j / w < h,
        0 <= j % w < w,
        j == w * (j / w) + j % w,
{
    lemma_fundamental_div_mod(j, w);
    lemma_mod_division_less_than_divisor(j, w);
    lemma_div_pos_is_pos(j, w);
    lemma_multiply_divide_lt(j, w, h);
}

/// A row and column compose back to their pixel index.
proof fn lemma_grid_compose(r: int, c: int, w: int)
    requires
        0 < w,
        0 <= c < w,
        0 <= r,
    ensures
        (r * w + c) / w == r,
        (r * w + c) % w == c,
{
    assert(r * w == w * r) by (nonlinear_arith);
    lemma_div_multiples_vanish_fancy(r, c, w);
    lemma_mod_multiples_vanish(r, c, w);
    lemma_small_mod(c as nat, w as nat);
}

/// Carry the crop loop's flat-index invariant over to row and column
/// coordinates.
proof fn lemma_grid_ensures(out: Seq<u8>, src: Seq<u8>, w: int, h: int, iw: int, x: int, y: int)
    requires
        0 <= w,
        forall|p: int, k: int|
            0 <= p < w * h && 0 <= k < 4 ==> #[trigger] out[4 * p + k] == src[4 * ((y + p / w)
                * iw + (x + p % w)) + k],
    ensures
        forall|r: int, c: int, k: int|
            0 <= r < h && 0 <= c < w && 0 <= k < 4 ==> #[trigger] out[(r * w + c) * 4 + k]
                == src[((y + r) * iw + (x + c)) * 4 + k],
{
    assert forall|r: int, c: int, k: int|
        0 <= r < h && 0 <= c < w && 0 <= k < 4 implies #[trigger] out[(r * w + c) * 4 + k]
        == src[((y + r) * iw + (x + c)) * 4 + k] by {
        let p = r * w + c;
        lemma_grid_compose(r, c, w);
        assert(0 <= r * w + c < w * h) by (nonlinear_arith)
            requires
                0 <= r < h,
                0 <= c < w,
        ;
        assert(out[4 * p + k] == src[4 * ((y + p / w) * iw + (x + p % w)) + k]);
        assert((r * w + c) * 4 + k == 4 * p + k);
        assert(((y + r) * iw + (x + c)) * 4 + k == 4 * ((y + p / w) * iw + (x + p % w)) + k);
    }
}

/// Carry the resize loop's flat-index invariant over to row and column
/// coordinates.
proof fn lemma_sample_ensures(out: Seq<u8>, src: Seq<u8>, w: int, h: int, iw: int, ih: int)
    requires
        0 <= w,
        forall|p: int, k: int|
            0 <= p < w * h && 0 <= k < 4 ==> #[trigger] out[4 * p + k] == src[4 * ((p / w * ih
                / h) * iw + (p % w) * iw / w) + k],
    ensures
        forall|r: int, c: int, k: int|
            0 <= r < h && 0 <= c < w && 0 <= k < 4 ==> #[trigger] out[(r * w + c) * 4 + k]
                == src[((r * ih / h) * iw + (c * iw / w)) * 4 + k],
{
    assert forall|r: int, c: int, k: int|
        0 <= r < h && 0 <= c < w && 0 <= k < 4 implies #[trigger] out[(r * w + c) * 4 + k]
        == src[((r * ih / h) * iw + (c * iw / w)) * 4 + k] by {
        let p = r * w + c;
        lemma_grid_compose(r, c, w);
        assert(0 <= r * w + c < w * h) by (nonlinear_arith)
            requires
                0 <= r < h,
                0 <= c < w,
        ;
        assert(out[4 * p + k] == src[4 * ((p / w * ih / h) * iw + (p % w) * iw / w) + k]);
        assert((r * w + c) * 4 + k == 4 * p + k);
        assert(((r * ih / h) * iw + (c * iw / w)) * 4 + k == 4 * ((p / w * ih / h) * iw + (p % w)
            * iw / w) + k);
    }
}

/// Carry the flip loop's flat-index invariant over to row and column
/// coordinates.
proof fn lemma_flip_ensures(
    out: Seq<u8>,
    src: Seq<u8>,
    iw: int,
    ih: int,
    horizontal: bool,
    vertical: bool,
)
    requires
        0 <= iw,
        forall|p: int, k: int|
            0 <= p < iw * ih && 0 <= k < 4 ==> #[trigger] out[4 * p + k] == src[4 * ((if vertical {
                ih - 1 - p / iw
            } else {
                p / iw
            }) * iw + (if horizontal {
                iw - 1 - p % iw
            } else {
                p % iw
            })) + k],
    ensures
        forall|r: int, c: int, k: int|
            0 <= r < ih && 0 <= c < iw && 0 <= k < 4 ==> #[trigger] out[(r * iw + c) * 4 + k]
                == src[((if vertical {
                ih - 1 - r
            } else {
                r
            }) * iw + (if horizontal {
                iw - 1 - c
            } else {
                c
            })) * 4 + k],
{
    assert forall|r: int, c: int, k: int|
        0 <= r < ih && 0 <= c < iw && 0 <= k < 4 implies #[trigger] out[(r * iw + c) * 4 + k]
        == src[((if vertical {
        ih - 1 - r
    } else {
        r
    }) * iw + (if horizontal {
        iw - 1 - c
    } else {
        c
    })) * 4 + k] by {
        let p = r * iw + c;
        lemma_grid_compose(r, c, iw);
        assert(0 <= r * iw + c < iw * ih) by (nonlinear_arith)
            requires
                0 <= r < ih,
                0 <= c < iw,
        ;
        assert(out[4 * p + k] == src[4 * ((if vertical {
            ih - 1 - p / iw
        } else {
            p / iw
        }) * iw + (if horizontal {
            iw - 1 - p % iw
        } else {
            p % iw
        })) + k]);
    }
}

} // verus!
