//! Colors with 8 bits per channel, and their linear blends.

use vstd::prelude::*;
use crate::fixed::Fixed;
use crate::fixed::lemma_product_bound;
use crate::fixed::scale_down_i128;

verus! {

/// A channel value scaled by a factor: the exact product rounded toward negative infinity and
/// clamped to `0..=255`.
pub open spec fn scale_channel(c: u8, factor: Fixed) -> u8 {
    let exact = (c * factor@) / 65536;
    if exact < 0 {
        0u8
    } else if exact > 255 {
        255u8
    } else {
        exact as u8
    }
}

/// The sum of two channel values, clamped to 255.
pub open spec fn add_channel(a: u8, b: u8) -> u8 {
    if a + b > 255 {
        255u8
    } else {
        (a + b) as u8
    }
}

/// The channel value at fraction `t` of the way from `a` to `b`, rounded to the nearest whole
/// number; `t` is clamped to `0..=1` first.
pub open spec fn blend_channel(a: u8, b: u8, t: Fixed) -> u8 {
    let f = t.spec_clamp(Fixed::zero(), Fixed::one())@;
    ((a * 65536 + (b - a) * f + 32768) / 65536) as u8
}

/// A blend never leaves the interval between its two ends.
pub proof fn lemma_blend_in_range(a: u8, b: u8, f: int)
    requires
        0 <= f <= 65536,
    ensures
        a <= b ==> a <= (a * 65536 + (b - a) * f + 32768) / 65536 <= b,
        b <= a ==> b <= (a * 65536 + (b - a) * f + 32768) / 65536 <= a,
{
    let d = b - a;
    assert(a <= b ==> 0 <= d * f <= d * 65536) by (nonlinear_arith)
        requires
            d == b - a,
            0 <= f <= 65536,
    ;
    assert(b <= a ==> d * 65536 <= d * f <= 0) by (nonlinear_arith)
        requires
            d == b - a,
            0 <= f <= 65536,
    ;
}

#[derive(Clone, Copy, Debug, PartialEq, Eq, Structural)]
pub struct Color {
    pub r: u8,
    pub g: u8,
    pub b: u8,
}

impl Color {
    pub open spec fn spec_black() -> Color {
        Color { r: 0, g: 0, b: 0 }
    }

    /// The packed form `0xRRGGBB`.
    pub open spec fn spec_to_hex(self) -> u32 {
        (self.r * 65536 + self.g * 256 + self.b) as u32
    }

    /// The color that the low 24 bits of `hex` pack.
    pub open spec fn spec_from_hex(hex: u32) -> Color {
        Color {
            r: ((hex / 65536) % 256) as u8,
            g: ((hex / 256) % 256) as u8,
            b: (hex % 256) as u8,
        }
    }

    pub open spec fn spec_scaled(self, factor: Fixed) -> Color {
        Color {
            r: scale_channel(self.r, factor),
            g: scale_channel(self.g, factor),
            b: scale_channel(self.b, factor),
        }
    }

    pub open spec fn spec_plus(self, rhs: Color) -> Color {
        Color {
            r: add_channel(self.r, rhs.r),
            g: add_channel(self.g, rhs.g),
            b: add_channel(self.b, rhs.b),
        }
    }

    pub open spec fn spec_lerp(self, other: Color, t: Fixed) -> Color {
        Color {
            r: blend_channel(self.r, other.r, t),
            g: blend_channel(self.g, other.g, t),
            b: blend_channel(self.b, other.b, t),
        }
    }

    pub fn new(r: u8, g: u8, b: u8) -> (c: Color)
        ensures
            c == (Color { r, g, b }),
    {
        Color { r, g, b }
    }

    #[verifier::when_used_as_spec(spec_black)]
    pub fn black() -> (c: Color)
        ensures
            c == Color::spec_black(),
    {
        Color { r: 0, g: 0, b: 0 }
    }

    /// The packed form `0xRRGGBB`.
    #[verifier::when_used_as_spec(spec_to_hex)]
    pub fn to_hex(self) -> (hex: u32)
        ensures
            hex == self.spec_to_hex(),
    {
        (self.r as u32) * 65536 + (self.g as u32) * 256 + (self.b as u32)
    }

    /// The color that the low 24 bits of `hex` pack.
    #[verifier::when_used_as_spec(spec_from_hex)]
    pub fn from_hex(hex: u32) -> (c: Color)
        ensures
            c == Color::spec_from_hex(hex),
    {
        Color {
            r: ((hex / 65536) % 256) as u8,
            g: ((hex / 256) % 256) as u8,
            b: (hex % 256) as u8,
        }
    }

    fn scaled_channel(c: u8, factor: Fixed) -> (r: u8)
        ensures
            r == scale_channel(c, factor),
    {
        proof {
            lemma_product_bound(c as int, factor@, 255, 0x8000_0000);
        }
        let exact: i128 = scale_down_i128((c as i128) * (factor.raw as i128));
        if exact < 0 {
            0
        } else if exact > 255 {
            255
        } else {
            exact as u8
        }
    }

    /// Every channel multiplied by `factor`, rounded toward negative infinity and clamped to
    /// `0..=255`.
    #[verifier::when_used_as_spec(spec_scaled)]
    pub fn scaled(self, factor: Fixed) -> (c: Color)
        ensures
            c == self.spec_scaled(factor),
    {
        Color {
            r: Color::scaled_channel(self.r, factor),
            g: Color::scaled_channel(self.g, factor),
            b: Color::scaled_channel(self.b, factor),
        }
    }

    fn added_channel(a: u8, b: u8) -> (r: u8)
        ensures
            r == add_channel(a, b),
    {
        let sum: u16 = a as u16 + b as u16;
        if sum > 255 {
            255
        } else {
            sum as u8
        }
    }

    /// The channelwise sum, each channel clamped to 255.
    #[verifier::when_used_as_spec(spec_plus)]
    pub fn plus(self, rhs: Color) -> (c: Color)
        ensures
            c == self.spec_plus(rhs),
    {
        Color {
            r: Color::added_channel(self.r, rhs.r),
            g: Color::added_channel(self.g, rhs.g),
            b: Color::added_channel(self.b, rhs.b),
        }
    }

    fn blended_channel(a: u8, b: u8, t: Fixed) -> (r: u8)
        ensures
            r == blend_channel(a, b, t),
    {
        let f: Fixed = t.clamp(Fixed::zero(), Fixed::one());
        proof {
            lemma_blend_in_range(a, b, f@);
            lemma_product_bound(b - a, f@, 255, 65536);
        }
        let exact: i128 = scale_down_i128(
            (a as i128) * 65536 + (b as i128 - a as i128) * (f.raw as i128) + 32768,
        );
        exact as u8
    }

    /// The color at fraction `t` of the way from `self` to `other`, each channel rounded to the
    /// nearest whole number; `t` is clamped to `0..=1` first.
    #[verifier::when_used_as_spec(spec_lerp)]
    pub fn lerp(self, other: Color, t: Fixed) -> (c: Color)
        ensures
            c == self.spec_lerp(other, t),
    {
        Color {
            r: Color::blended_channel(self.r, other.r, t),
            g: Color::blended_channel(self.g, other.g, t),
            b: Color::blended_channel(self.b, other.b, t),
        }
    }
}

} // verus!
