//! Saturating 16.16 fixed-point numbers.
//!
//! A [`Fixed`] stores a rational number as a 32-bit integer scaled by 2^16.
//! Every operation computes its exact mathematical result, rounds it toward
//! negative infinity to the nearest representable value and clamps it to the
//! representable range, so no operation can overflow or fail.

use vstd::prelude::*;
use vstd::arithmetic::div_mod::lemma_fundamental_div_mod;
use vstd::arithmetic::div_mod::lemma_fundamental_div_mod_converse;

verus! {

/// The raw representation of the number one.
pub const SCALE: i32 = 65536;

/// The largest raw value.
pub const RAW_MAX: i32 = 0x7fff_ffff;

/// The smallest raw value.
pub const RAW_MIN: i32 = -0x8000_0000;

/// Clamps an integer to the range of raw values.
pub open spec fn saturate(x: int) -> int {
    if x < RAW_MIN {
        RAW_MIN as int
    } else if x > RAW_MAX {
        RAW_MAX as int
    } else {
        x
    }
}

/// The quotient of `a` by the nonzero `b`, rounded toward negative infinity.
pub open spec fn floor_div(a: int, b: int) -> int {
    if b > 0 {
        a / b
    } else {
        (-a) / (-b)
    }
}

/// The raw value of the quotient of two raw values: the exact quotient rounded toward negative
/// infinity and clamped. Dividing by zero gives the extreme value with the sign of the dividend,
/// and zero for a zero dividend.
pub open spec fn raw_quotient(a: int, b: int) -> int {
    if b != 0 {
        saturate(floor_div(a * 65536, b))
    } else if a > 0 {
        RAW_MAX as int
    } else if a < 0 {
        RAW_MIN as int
    } else {
        0
    }
}

/// The raw value of the product of two raw values.
pub open spec fn raw_product(a: int, b: int) -> int {
    saturate((a * b) / 65536)
}

/// `floor_div(a, b)` is the one integer `q` with `q * b <= a < (q + 1) * b` for positive `b`.
pub proof fn lemma_floor_div_bounds(a: int, b: int)
    requires
        b > 0,
    ensures
        floor_div(a, b) * b <= a < (floor_div(a, b) + 1) * b,
{
    lemma_fundamental_div_mod(a, b);
    assert(b * (a / b) == (a / b) * b) by (nonlinear_arith);
    assert((a / b + 1) * b == (a / b) * b + b) by (nonlinear_arith);
}

/// Any integer `q` with `q * b <= a < (q + 1) * b` is `floor_div(a, b)`.
pub proof fn lemma_floor_div_unique(a: int, b: int, q: int)
    requires
        b > 0,
        q * b <= a < (q + 1) * b,
    ensures
        floor_div(a, b) == q,
{
    let r = a - q * b;
    assert((q + 1) * b == q * b + b) by (nonlinear_arith);
    assert(q * b == b * q) by (nonlinear_arith);
    lemma_fundamental_div_mod_converse(a, b, q, r);
}

/// A multiple of the divisor divides exactly.
pub proof fn lemma_floor_div_multiple(q: int, b: int)
    requires
        b != 0,
    ensures
        floor_div(q * b, b) == q,
{
    if b > 0 {
        assert((q + 1) * b == q * b + b) by (nonlinear_arith);
        lemma_floor_div_unique(q * b, b, q);
    } else {
        assert(-(q * b) == q * (-b)) by (nonlinear_arith);
        assert((q + 1) * (-b) == q * (-b) + (-b)) by (nonlinear_arith);
        lemma_floor_div_unique(q * (-b), -b, q);
    }
}

/// The product of two bounded integers is bounded by the product of the bounds.
pub proof fn lemma_product_bound(a: int, b: int, m: int, n: int)
    by (nonlinear_arith)
    requires
        -m <= a <= m,
        -n <= b <= n,
    ensures
        -(m * n) <= a * b <= m * n,
{
}

/// Clamps a 64-bit integer to the range of raw values.
pub fn saturate_i64(x: i64) -> (r: i32)
    ensures
        r == saturate(x as int),
{
    if x < RAW_MIN as i64 {
        RAW_MIN
    } else if x > RAW_MAX as i64 {
        RAW_MAX
    } else {
        x as i32
    }
}

/// Clamps a 128-bit integer to the range of raw values.
pub fn saturate_i128(x: i128) -> (r: i32)
    ensures
        r == saturate(x as int),
{
    if x < RAW_MIN as i128 {
        RAW_MIN
    } else if x > RAW_MAX as i128 {
        RAW_MAX
    } else {
        x as i32
    }
}

/// Divides by a nonzero divisor, rounding toward negative infinity.
pub fn floor_div_i128(a: i128, b: i128) -> (q: i128)
    requires
        b != 0,
        i128::MIN < a,
        i128::MIN < b,
    ensures
        q == floor_div(a as int, b as int),
{
    let (n, d): (i128, i128) = if b > 0 {
        (a, b)
    } else {
        (-a, -b)
    };
    assert(floor_div(a as int, b as int) == floor_div(n as int, d as int));
    if n >= 0 {
        n / d
    } else {
        let m: i128 = -n;
        let t: i128 = m / d;
        let r: i128 = m % d;
        proof {
            lemma_fundamental_div_mod(m as int, d as int);
            assert((d as int) * (t as int) == (t as int) * (d as int)) by (nonlinear_arith);
        }
        if r == 0 {
            proof {
                assert((-t) * d == -(t * d)) by (nonlinear_arith);
                assert((-t + 1) * d == (-t) * d + d) by (nonlinear_arith);
                lemma_floor_div_unique(n as int, d as int, -(t as int));
            }
            -t
        } else {
            proof {
                assert((-t - 1) * d == -(t * d) - d) by (nonlinear_arith);
                assert((-t - 1 + 1) * d == -(t * d)) by (nonlinear_arith);
                lemma_floor_div_unique(n as int, d as int, -(t as int) - 1);
            }
            -t - 1
        }
    }
}

/// Divides by 2^16, rounding toward negative infinity.
pub fn scale_down_i128(x: i128) -> (q: i128)
    ensures
        q == (x as int) / 65536,
{
    assert(x >> 16 == x / 65536) by (bit_vector);
    x >> 16
}

/// A 16.16 fixed-point number: the rational `raw / 65536`.
#[derive(Clone, Copy, Debug, PartialEq, Eq, Structural)]
pub struct Fixed {
    pub raw: i32,
}

impl View for Fixed {
    type V = int;

    /// The number scaled by 2^16, as a mathematical integer.
    open spec fn view(&self) -> int {
        self.raw as int
    }
}

impl Fixed {
    /// The fixed-point number with the given scaled value, clamped to the representable range.
    pub open spec fn from_scaled(x: int) -> Fixed {
        Fixed { raw: saturate(x) as i32 }
    }

    pub open spec fn spec_zero() -> Fixed {
        Fixed { raw: 0 }
    }

    pub open spec fn spec_one() -> Fixed {
        Fixed { raw: 65536 }
    }

    pub open spec fn spec_infinity() -> Fixed {
        Fixed { raw: RAW_MAX }
    }

    pub open spec fn spec_from_int(n: i32) -> Fixed {
        Fixed::from_scaled(n * 65536)
    }

    pub open spec fn spec_from_ratio(numerator: i32, denominator: i32) -> Fixed {
        Fixed { raw: raw_quotient(numerator as int, denominator as int) as i32 }
    }

    pub open spec fn spec_plus(self, rhs: Fixed) -> Fixed {
        Fixed::from_scaled(self@ + rhs@)
    }

    pub open spec fn spec_minus(self, rhs: Fixed) -> Fixed {
        Fixed::from_scaled(self@ - rhs@)
    }

    pub open spec fn spec_times(self, rhs: Fixed) -> Fixed {
        Fixed { raw: raw_product(self@, rhs@) as i32 }
    }

    pub open spec fn spec_over(self, rhs: Fixed) -> Fixed {
        Fixed { raw: raw_quotient(self@, rhs@) as i32 }
    }

    pub open spec fn spec_neg(self) -> Fixed {
        Fixed::from_scaled(-self@)
    }

    pub open spec fn spec_abs(self) -> Fixed {
        if self@ < 0 {
            self.spec_neg()
        } else {
            self
        }
    }

    pub open spec fn spec_min(self, rhs: Fixed) -> Fixed {
        if rhs@ < self@ {
            rhs
        } else {
            self
        }
    }

    pub open spec fn spec_max(self, rhs: Fixed) -> Fixed {
        if rhs@ > self@ {
            rhs
        } else {
            self
        }
    }

    pub open spec fn spec_clamp(self, lo: Fixed, hi: Fixed) -> Fixed {
        self.spec_max(lo).spec_min(hi)
    }

    pub open spec fn spec_floor(self) -> int {
        self@ / 65536
    }

    pub open spec fn spec_ceil(self) -> int {
        (self@ + 65535) / 65536
    }

    /// The number with the given raw representation.
    pub fn from_raw(raw: i32) -> (r: Fixed)
        ensures
            r.raw == raw,
    {
        Fixed { raw }
    }

    /// Zero.
    #[verifier::when_used_as_spec(spec_zero)]
    pub fn zero() -> (r: Fixed)
        ensures
            r == Fixed::spec_zero(),
    {
        Fixed { raw: 0 }
    }

    /// One.
    #[verifier::when_used_as_spec(spec_one)]
    pub fn one() -> (r: Fixed)
        ensures
            r == Fixed::spec_one(),
    {
        Fixed { raw: 65536 }
    }

    /// The largest representable number. Every saturating operation whose exact result is too
    /// large returns it, and no number compares greater, so it stands for positive infinity.
    #[verifier::when_used_as_spec(spec_infinity)]
    pub fn infinity() -> (r: Fixed)
        ensures
            r == Fixed::spec_infinity(),
    {
        Fixed { raw: RAW_MAX }
    }

    /// The whole number `n`, clamped to the representable range.
    #[verifier::when_used_as_spec(spec_from_int)]
    pub fn from_int(n: i32) -> (r: Fixed)
        ensures
            r == Fixed::spec_from_int(n),
    {
        let wide: i64 = (n as i64) * 65536;
        Fixed { raw: saturate_i64(wide) }
    }

    /// The ratio of two whole numbers, rounded toward negative infinity and clamped. A zero
    /// denominator gives the extreme value with the sign of the numerator, and zero for a zero
    /// numerator.
    #[verifier::when_used_as_spec(spec_from_ratio)]
    pub fn from_ratio(numerator: i32, denominator: i32) -> (r: Fixed)
        ensures
            r == Fixed::spec_from_ratio(numerator, denominator),
    {
        (Fixed { raw: numerator }).over(Fixed { raw: denominator })
    }

    /// The sum, clamped to the representable range.
    #[verifier::when_used_as_spec(spec_plus)]
    pub fn plus(self, rhs: Fixed) -> (r: Fixed)
        ensures
            r == self.spec_plus(rhs),
    {
        Fixed { raw: saturate_i64(self.raw as i64 + rhs.raw as i64) }
    }

    /// The difference, clamped to the representable range.
    #[verifier::when_used_as_spec(spec_minus)]
    pub fn minus(self, rhs: Fixed) -> (r: Fixed)
        ensures
            r == self.spec_minus(rhs),
    {
        Fixed { raw: saturate_i64(self.raw as i64 - rhs.raw as i64) }
    }

    /// The product, rounded toward negative infinity and clamped.
    #[verifier::when_used_as_spec(spec_times)]
    pub fn times(self, rhs: Fixed) -> (r: Fixed)
        ensures
            r == self.spec_times(rhs),
    {
        proof {
            lemma_product_bound(self.raw as int, rhs.raw as int, 0x8000_0000, 0x8000_0000);
        }
        let wide: i128 = (self.raw as i128) * (rhs.raw as i128);
        Fixed { raw: saturate_i128(scale_down_i128(wide)) }
    }

    /// The quotient, rounded toward negative infinity and clamped. Dividing by zero gives the
    /// extreme value with the sign of the dividend, and zero for a zero dividend.
    #[verifier::when_used_as_spec(spec_over)]
    pub fn over(self, rhs: Fixed) -> (r: Fixed)
        ensures
            r == self.spec_over(rhs),
    {
        if rhs.raw != 0 {
            let wide: i128 = (self.raw as i128) * 65536;
            Fixed { raw: saturate_i128(floor_div_i128(wide, rhs.raw as i128)) }
        } else if self.raw > 0 {
            Fixed { raw: RAW_MAX }
        } else if self.raw < 0 {
            Fixed { raw: RAW_MIN }
        } else {
            Fixed { raw: 0 }
        }
    }

    /// The negation, clamped to the representable range.
    #[verifier::when_used_as_spec(spec_neg)]
    pub fn neg(self) -> (r: Fixed)
        ensures
            r == self.spec_neg(),
    {
        Fixed { raw: saturate_i64(-(self.raw as i64)) }
    }

    /// The absolute value, clamped to the representable range.
    #[verifier::when_used_as_spec(spec_abs)]
    pub fn abs(self) -> (r: Fixed)
        ensures
            r == self.spec_abs(),
    {
        if self.raw < 0 {
            self.neg()
        } else {
            self
        }
    }

    /// The smaller of two numbers.
    #[verifier::when_used_as_spec(spec_min)]
    pub fn min(self, rhs: Fixed) -> (r: Fixed)
        ensures
            r == self.spec_min(rhs),
    {
        if rhs.raw < self.raw {
            rhs
        } else {
            self
        }
    }

    /// The larger of two numbers.
    #[verifier::when_used_as_spec(spec_max)]
    pub fn max(self, rhs: Fixed) -> (r: Fixed)
        ensures
            r == self.spec_max(rhs),
    {
        if rhs.raw > self.raw {
            rhs
        } else {
            self
        }
    }

    /// The number raised to at least `lo` and then lowered to at most `hi`.
    #[verifier::when_used_as_spec(spec_clamp)]
    pub fn clamp(self, lo: Fixed, hi: Fixed) -> (r: Fixed)
        ensures
            r == self.spec_clamp(lo, hi),
    {
        self.max(lo).min(hi)
    }

    /// The largest whole number that is not greater.
    pub fn floor(self) -> (r: i32)
        ensures
            r == self.spec_floor(),
    {
        let q: i128 = scale_down_i128(self.raw as i128);
        q as i32
    }

    /// The smallest whole number that is not less.
    pub fn ceil(self) -> (r: i32)
        ensures
            r == self.spec_ceil(),
    {
        let q: i128 = scale_down_i128(self.raw as i128 + 65535);
        q as i32
    }
}

} // verus!
