//! Integer-exact size arithmetic for fitting an image into, or covering,
//! a container while keeping its aspect ratio.

use vstd::prelude::*;
use vstd::arithmetic::div_mod::{
    lemma_div_is_ordered,
    lemma_div_by_multiple,
    lemma_multiply_divide_le,
};

verus! {

/// A width and height in pixels.
#[derive(Clone, Copy, Debug, PartialEq, Eq, Structural)]
pub struct ImageSize {
    pub width: u32,
    pub height: u32,
}

impl ImageSize {
    /// Construct a size from its two extents.
    pub fn new(width: u32, height: u32) -> (r: ImageSize)
        ensures
            r.width == width,
            r.height == height,
    {
        ImageSize { width, height }
    }

    /// The largest size with this aspect ratio that fits inside
    /// `container`: the scale is the smaller of the two axis ratios, and
    /// the scaled extents are rounded down.
    pub fn fit_in(&self, container: &ImageSize) -> (r: ImageSize)
        requires
            self.width >= 1,
            self.height >= 1,
        ensures
            container.width * self.height <= container.height * self.width ==> r.width
                == container.width && r.height == self.height * container.width / (
            self.width as int),
            container.width * self.height > container.height * self.width ==> r.height
                == container.height && r.width == self.width * container.height / (
            self.height as int),
            r.width <= container.width,
            r.height <= container.height,
    {
        let sw = self.width as u64;
        let sh = self.height as u64;
        let cw = container.width as u64;
        let ch = container.height as u64;
        proof {
            lemma_u32_products_fit(self.width, self.height, container.width, container.height);
        }
        if cw * sh <= ch * sw {
            let h = sh * cw / sw;
            proof {
                lemma_multiply_divide_le(sh as int * cw as int, sw as int, ch as int);
            }
            ImageSize { width: container.width, height: h as u32 }
        } else {
            let w = sw * ch / sh;
            proof {
                lemma_multiply_divide_le(sw as int * ch as int, sh as int, cw as int);
            }
            ImageSize { width: w as u32, height: container.height }
        }
    }

    /// The smallest size with this aspect ratio that covers `container`:
    /// the scale is the larger of the two axis ratios.  An extent that
    /// would not fit in 32 bits saturates at `u32::MAX`.
    pub fn cover(&self, container: &ImageSize) -> (r: ImageSize)
        requires
            self.width >= 1,
            self.height >= 1,
        ensures
            container.width * self.height >= container.height * self.width ==> r.width
                == container.width && r.height == saturated_u32(
                self.height * container.width / (self.width as int),
            ),
            container.width * self.height < container.height * self.width ==> r.height
                == container.height && r.width == saturated_u32(
                self.width * container.height / (self.height as int),
            ),
            r.width >= container.width || r.width == u32::MAX,
            r.height >= container.height || r.height == u32::MAX,
    {
        let sw = self.width as u64;
        let sh = self.height as u64;
        let cw = container.width as u64;
        let ch = container.height as u64;
        proof {
            lemma_u32_products_fit(self.width, self.height, container.width, container.height);
        }
        if cw * sh >= ch * sw {
            let h = sh * cw / sw;
            proof {
                lemma_div_by_multiple(ch as int, sw as int);
                lemma_div_is_ordered(ch as int * sw as int, sh as int * cw as int, sw as int);
            }
            ImageSize { width: container.width, height: saturate_u32(h) }
        } else {
            let w = sw * ch / sh;
            proof {
                lemma_div_by_multiple(cw as int, sh as int);
                lemma_div_is_ordered(cw as int * sh as int, sw as int * ch as int, sh as int);
            }
            ImageSize { width: saturate_u32(w), height: container.height }
        }
    }
}

/// A nonnegative value held to the `u32` range.
pub open spec fn saturated_u32(v: int) -> u32 {
    if v > u32::MAX {
        u32::MAX
    } else {
        v as u32
    }
}

/// Clamp a 64-bit extent to the `u32` range.
fn saturate_u32(v: u64) -> (r: u32)
    ensures
        r == saturated_u32(v as int),
{
    if v > u32::MAX as u64 {
        u32::MAX
    } else {
        v as u32
    }
}

/// Products of two 32-bit extents fit in 64 bits.
proof fn lemma_u32_products_fit(a: u32, b: u32, c: u32, d: u32)
    ensures
        a * b <= u64::MAX,
        a * d <= u64::MAX,
        c * b <= u64::MAX,
        c * d <= u64::MAX,
        b * c <= u64::MAX,
        d * a <= u64::MAX,
{
    assert(a * b <= u64::MAX && a * d <= u64::MAX && c * b <= u64::MAX && c * d <= u64::MAX && b
        * c <= u64::MAX && d * a <= u64::MAX) by (nonlinear_arith)
        requires
            a <= u32::MAX,
            b <= u32::MAX,
            c <= u32::MAX,
            d <= u32::MAX,
    ;
}

} // verus!
