//! Global color-adjustment parameters.
//!
//! The three adjustment scalars are carried in thousandths of their
//! nominal unit: a brightness of `-1000` darkens by one full unit, a
//! contrast or saturation of `1000` is the neutral factor.  Every setter
//! clamps to its domain before committing, so no out-of-range value is
//! ever handed to the device.

use vstd::prelude::*;

verus! {

/// Lower bound of the brightness domain, in thousandths.
pub const BRIGHTNESS_MIN: i32 = -1000;
/// Upper bound of the brightness domain, in thousandths.
pub const BRIGHTNESS_MAX: i32 = 1000;
/// Lower bound of the contrast domain, in thousandths.
pub const CONTRAST_MIN: i32 = 0;
/// Upper bound of the contrast domain, in thousandths.
pub const CONTRAST_MAX: i32 = 2000;
/// Lower bound of the saturation domain, in thousandths.
pub const SATURATION_MIN: i32 = 0;
/// Upper bound of the saturation domain, in thousandths.
pub const SATURATION_MAX: i32 = 2000;

/// Default brightness: no offset.
pub const BRIGHTNESS_DEFAULT: i32 = 0;
/// Default contrast: the neutral factor.
pub const CONTRAST_DEFAULT: i32 = 1000;
/// Default saturation: the neutral factor.
pub const SATURATION_DEFAULT: i32 = 1000;

/// A value clamped to the inclusive interval `[lo, hi]`: inputs outside
/// the interval land on the boundary nearest to them.
pub open spec fn clamped(value: int, lo: int, hi: int) -> int {
    if value < lo {
        lo
    } else if value > hi {
        hi
    } else {
        value
    }
}

/// The host-side copy of the adjustment record that the device shader
/// reads.  Its byte encoding (see [`AdjustmentParams::encode`]) is four
/// little-endian 32-bit words: the three scalars in field order, then the
/// reserved word, 16 bytes in all.
#[derive(Clone, Copy, Debug, PartialEq, Eq, Structural)]
pub struct AdjustmentParams {
    /// Brightness offset in thousandths; domain `-1000 ..= 1000`.
    pub brightness: i32,
    /// Contrast factor in thousandths; domain `0 ..= 2000`.
    pub contrast: i32,
    /// Saturation factor in thousandths; domain `0 ..= 2000`.
    pub saturation: i32,
    /// Reserved alignment word, always zero; it pads the encoded record
    /// to 16 bytes, the minimum uniform-block alignment.
    pub padding: i32,
}

/// The four little-endian bytes of a 32-bit word.
pub open spec fn le_word_bytes(w: u32) -> Seq<u8> {
    seq![
        (w & 0xff) as u8,
        ((w >> 8) & 0xff) as u8,
        ((w >> 16) & 0xff) as u8,
        ((w >> 24) & 0xff) as u8,
    ]
}

impl AdjustmentParams {
    /// Every scalar lies in its domain and the reserved word is zero.
    pub open spec fn wf(self) -> bool {
        &&& BRIGHTNESS_MIN <= self.brightness <= BRIGHTNESS_MAX
        &&& CONTRAST_MIN <= self.contrast <= CONTRAST_MAX
        &&& SATURATION_MIN <= self.saturation <= SATURATION_MAX
        &&& self.padding == 0
    }

    /// The compile-time default: no brightness offset, neutral contrast
    /// and saturation.
    pub open spec fn default_spec() -> AdjustmentParams {
        AdjustmentParams {
            brightness: BRIGHTNESS_DEFAULT,
            contrast: CONTRAST_DEFAULT,
            saturation: SATURATION_DEFAULT,
            padding: 0,
        }
    }

    /// The record a freshly zero-initialized device buffer holds.
    pub open spec fn zeroed_spec() -> AdjustmentParams {
        AdjustmentParams { brightness: 0, contrast: 0, saturation: 0, padding: 0 }
    }

    /// Construct the default parameters.
    pub fn default() -> (r: AdjustmentParams)
        ensures
            r == AdjustmentParams::default_spec(),
            r.wf(),
    {
        AdjustmentParams {
            brightness: BRIGHTNESS_DEFAULT,
            contrast: CONTRAST_DEFAULT,
            saturation: SATURATION_DEFAULT,
            padding: 0,
        }
    }

    /// Restore the defaults, whatever the prior state was.
    pub fn reset(&mut self)
        ensures
            *final(self) == AdjustmentParams::default_spec(),
            final(self).wf(),
    {
        *self = AdjustmentParams::default();
    }

    /// Set the brightness, clamping the input to its domain.
    pub fn set_brightness(&mut self, value: i32)
        ensures
            final(self).brightness == clamped(value as int, BRIGHTNESS_MIN as int, BRIGHTNESS_MAX as int),
            final(self).contrast == old(self).contrast,
            final(self).saturation == old(self).saturation,
            final(self).padding == old(self).padding,
    {
        self.brightness = clamp_i32(value, BRIGHTNESS_MIN, BRIGHTNESS_MAX);
    }

    /// Set the contrast, clamping the input to its domain.
    pub fn set_contrast(&mut self, value: i32)
        ensures
            final(self).contrast == clamped(value as int, CONTRAST_MIN as int, CONTRAST_MAX as int),
            final(self).brightness == old(self).brightness,
            final(self).saturation == old(self).saturation,
            final(self).padding == old(self).padding,
    {
        self.contrast = clamp_i32(value, CONTRAST_MIN, CONTRAST_MAX);
    }

    /// Set the saturation, clamping the input to its domain.
    pub fn set_saturation(&mut self, value: i32)
        ensures
            final(self).saturation == clamped(value as int, SATURATION_MIN as int, SATURATION_MAX as int),
            final(self).brightness == old(self).brightness,
            final(self).contrast == old(self).contrast,
            final(self).padding == old(self).padding,
    {
        self.saturation = clamp_i32(value, SATURATION_MIN, SATURATION_MAX);
    }

    /// The 16-byte device image of the record: the four words in field
    /// order, each little-endian two's complement.
    pub open spec fn encoded_spec(self) -> Seq<u8> {
        le_word_bytes(self.brightness as u32) + le_word_bytes(self.contrast as u32)
            + le_word_bytes(self.saturation as u32) + le_word_bytes(self.padding as u32)
    }

    /// Encode the record for the device parameter buffer: a deterministic,
    /// platform-independent little-endian layout in declared field order,
    /// 16 bytes in all.
    pub fn encode(&self) -> (r: Vec<u8>)
        ensures
            r@ == self.encoded_spec(),
            r@.len() == 16,
    {
        let mut out: Vec<u8> = Vec::new();
        push_le_word(&mut out, self.brightness as u32);
        push_le_word(&mut out, self.contrast as u32);
        push_le_word(&mut out, self.saturation as u32);
        push_le_word(&mut out, self.padding as u32);
        proof {
            assert(out@ =~= self.encoded_spec());
        }
        out
    }
}

/// Clamp a value to the inclusive interval `[lo, hi]`.
pub fn clamp_i32(value: i32, lo: i32, hi: i32) -> (r: i32)
    requires
        lo <= hi,
    ensures
        r == clamped(value as int, lo as int, hi as int),
{
    if value < lo {
        lo
    } else if value > hi {
        hi
    } else {
        value
    }
}

/// Append the four little-endian bytes of one 32-bit word.
fn push_le_word(out: &mut Vec<u8>, w: u32)
    ensures
        final(out)@ == old(out)@ + le_word_bytes(w),
{
    proof {
        assert((w & 0xff) < 256 && ((w >> 8) & 0xff) < 256 && ((w >> 16) & 0xff) < 256 && ((w
            >> 24) & 0xff) < 256) by (bit_vector);
    }
    out.push((w & 0xff) as u8);
    out.push(((w >> 8) & 0xff) as u8);
    out.push(((w >> 16) & 0xff) as u8);
    out.push(((w >> 24) & 0xff) as u8);
    proof {
        assert(out@ =~= old(out)@ + le_word_bytes(w));
    }
}

} // verus!
