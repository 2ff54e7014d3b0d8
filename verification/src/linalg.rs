//! Fixed-point vectors and matrices.
//!
//! Sums of products are accumulated exactly and rounded once: a dot product is the exact sum of
//! the componentwise products, rounded toward negative infinity to the nearest representable
//! value and clamped.

use vstd::prelude::*;
use crate::fixed::Fixed;
use crate::fixed::floor_div;
use crate::fixed::floor_div_i128;
use crate::fixed::lemma_product_bound;
use crate::fixed::saturate_i128;
use crate::fixed::scale_down_i128;

verus! {

#[derive(Clone, Copy, Debug, PartialEq, Eq, Structural)]
pub struct Vec2 {
    pub x: Fixed,
    pub y: Fixed,
}

#[derive(Clone, Copy, Debug, PartialEq, Eq, Structural)]
pub struct Vec3 {
    pub x: Fixed,
    pub y: Fixed,
    pub z: Fixed,
}

#[derive(Clone, Copy, Debug, PartialEq, Eq, Structural)]
pub struct Vec4 {
    pub x: Fixed,
    pub y: Fixed,
    pub z: Fixed,
    pub w: Fixed,
}

/// A 3 by 3 matrix, held as its three rows.
#[derive(Clone, Copy, Debug, PartialEq, Eq, Structural)]
pub struct Mat3 {
    pub r0: Vec3,
    pub r1: Vec3,
    pub r2: Vec3,
}

/// A 4 by 4 matrix, held as its four rows.
#[derive(Clone, Copy, Debug, PartialEq, Eq, Structural)]
pub struct Mat4 {
    pub r0: Vec4,
    pub r1: Vec4,
    pub r2: Vec4,
    pub r3: Vec4,
}

/// The exact product of two raw values.
fn raw_mul(a: i32, b: i32) -> (p: i128)
    ensures
        p == a * b,
        -0x4000_0000_0000_0000 <= p <= 0x4000_0000_0000_0000,
{
    proof {
        lemma_product_bound(a as int, b as int, 0x8000_0000, 0x8000_0000);
    }
    (a as i128) * (b as i128)
}

/// The determinant `a * d - b * c` of a 2 by 2 block of scaled values.
pub open spec fn minor(a: int, b: int, c: int, d: int) -> int {
    a * d - b * c
}

/// The exact 2 by 2 determinant of four raw values.
fn raw_minor(a: i32, b: i32, c: i32, d: i32) -> (m: i128)
    ensures
        m == minor(a as int, b as int, c as int, d as int),
        -0x8000_0000_0000_0000 <= m <= 0x8000_0000_0000_0000,
{
    raw_mul(a, d) - raw_mul(b, c)
}

/// The exact product of a raw value and a 2 by 2 determinant.
fn raw_mul_minor(a: i32, m: i128) -> (p: i128)
    requires
        -0x8000_0000_0000_0000 <= m <= 0x8000_0000_0000_0000,
    ensures
        p == a * m,
        -0x4000_0000_0000_0000_0000_0000 <= p <= 0x4000_0000_0000_0000_0000_0000,
{
    proof {
        lemma_product_bound(a as int, m as int, 0x8000_0000, 0x8000_0000_0000_0000);
    }
    (a as i128) * m
}

impl Vec2 {
    pub fn new(x: Fixed, y: Fixed) -> (v: Vec2)
        ensures
            v == (Vec2 { x, y }),
    {
        Vec2 { x, y }
    }
}

impl Vec3 {
    pub fn new(x: Fixed, y: Fixed, z: Fixed) -> (v: Vec3)
        ensures
            v == (Vec3 { x, y, z }),
    {
        Vec3 { x, y, z }
    }

    pub open spec fn spec_dot(self, rhs: Vec3) -> Fixed {
        Fixed::from_scaled((self.x@ * rhs.x@ + self.y@ * rhs.y@ + self.z@ * rhs.z@) / 65536)
    }

    /// The dot product.
    #[verifier::when_used_as_spec(spec_dot)]
    pub fn dot(self, rhs: Vec3) -> (r: Fixed)
        ensures
            r == self.spec_dot(rhs),
    {
        let sum: i128 = raw_mul(self.x.raw, rhs.x.raw) + raw_mul(self.y.raw, rhs.y.raw) + raw_mul(
            self.z.raw,
            rhs.z.raw,
        );
        Fixed { raw: saturate_i128(scale_down_i128(sum)) }
    }
}

impl Vec4 {
    pub fn new(x: Fixed, y: Fixed, z: Fixed, w: Fixed) -> (v: Vec4)
        ensures
            v == (Vec4 { x, y, z, w }),
    {
        Vec4 { x, y, z, w }
    }

    pub open spec fn spec_dot(self, rhs: Vec4) -> Fixed {
        Fixed::from_scaled(
            (self.x@ * rhs.x@ + self.y@ * rhs.y@ + self.z@ * rhs.z@ + self.w@ * rhs.w@) / 65536,
        )
    }

    /// The dot product.
    #[verifier::when_used_as_spec(spec_dot)]
    pub fn dot(self, rhs: Vec4) -> (r: Fixed)
        ensures
            r == self.spec_dot(rhs),
    {
        let sum: i128 = raw_mul(self.x.raw, rhs.x.raw) + raw_mul(self.y.raw, rhs.y.raw) + raw_mul(
            self.z.raw,
            rhs.z.raw,
        ) + raw_mul(self.w.raw, rhs.w.raw);
        Fixed { raw: saturate_i128(scale_down_i128(sum)) }
    }
}

impl Mat4 {
    pub open spec fn spec_identity() -> Mat4 {
        Mat4 {
            r0: Vec4 { x: Fixed::one(), y: Fixed::zero(), z: Fixed::zero(), w: Fixed::zero() },
            r1: Vec4 { x: Fixed::zero(), y: Fixed::one(), z: Fixed::zero(), w: Fixed::zero() },
            r2: Vec4 { x: Fixed::zero(), y: Fixed::zero(), z: Fixed::one(), w: Fixed::zero() },
            r3: Vec4 { x: Fixed::zero(), y: Fixed::zero(), z: Fixed::zero(), w: Fixed::one() },
        }
    }

    pub open spec fn spec_col0(self) -> Vec4 {
        Vec4 { x: self.r0.x, y: self.r1.x, z: self.r2.x, w: self.r3.x }
    }

    pub open spec fn spec_col1(self) -> Vec4 {
        Vec4 { x: self.r0.y, y: self.r1.y, z: self.r2.y, w: self.r3.y }
    }

    pub open spec fn spec_col2(self) -> Vec4 {
        Vec4 { x: self.r0.z, y: self.r1.z, z: self.r2.z, w: self.r3.z }
    }

    pub open spec fn spec_col3(self) -> Vec4 {
        Vec4 { x: self.r0.w, y: self.r1.w, z: self.r2.w, w: self.r3.w }
    }

    pub open spec fn spec_apply(self, v: Vec4) -> Vec4 {
        Vec4 { x: self.r0.dot(v), y: self.r1.dot(v), z: self.r2.dot(v), w: self.r3.dot(v) }
    }

    /// The row `row` of this matrix times the matrix `rhs`.
    pub open spec fn spec_row_times(row: Vec4, rhs: Mat4) -> Vec4 {
        Vec4 {
            x: row.dot(rhs.spec_col0()),
            y: row.dot(rhs.spec_col1()),
            z: row.dot(rhs.spec_col2()),
            w: row.dot(rhs.spec_col3()),
        }
    }

    pub open spec fn spec_times(self, rhs: Mat4) -> Mat4 {
        Mat4 {
            r0: Mat4::spec_row_times(self.r0, rhs),
            r1: Mat4::spec_row_times(self.r1, rhs),
            r2: Mat4::spec_row_times(self.r2, rhs),
            r3: Mat4::spec_row_times(self.r3, rhs),
        }
    }

    /// The matrix with the given entries, row by row.
    pub fn new(
        m11: Fixed,
        m12: Fixed,
        m13: Fixed,
        m14: Fixed,
        m21: Fixed,
        m22: Fixed,
        m23: Fixed,
        m24: Fixed,
        m31: Fixed,
        m32: Fixed,
        m33: Fixed,
        m34: Fixed,
        m41: Fixed,
        m42: Fixed,
        m43: Fixed,
        m44: Fixed,
    ) -> (m: Mat4)
        ensures
            m == (Mat4 {
                r0: Vec4 { x: m11, y: m12, z: m13, w: m14 },
                r1: Vec4 { x: m21, y: m22, z: m23, w: m24 },
                r2: Vec4 { x: m31, y: m32, z: m33, w: m34 },
                r3: Vec4 { x: m41, y: m42, z: m43, w: m44 },
            }),
    {
        Mat4 {
            r0: Vec4 { x: m11, y: m12, z: m13, w: m14 },
            r1: Vec4 { x: m21, y: m22, z: m23, w: m24 },
            r2: Vec4 { x: m31, y: m32, z: m33, w: m34 },
            r3: Vec4 { x: m41, y: m42, z: m43, w: m44 },
        }
    }

    /// The identity matrix.
    #[verifier::when_used_as_spec(spec_identity)]
    pub fn identity() -> (m: Mat4)
        ensures
            m == Mat4::spec_identity(),
    {
        let o: Fixed = Fixed::zero();
        let i: Fixed = Fixed::one();
        Mat4::new(i, o, o, o, o, i, o, o, o, o, i, o, o, o, o, i)
    }

    /// The matrix applied to a column vector.
    #[verifier::when_used_as_spec(spec_apply)]
    pub fn apply(self, v: Vec4) -> (r: Vec4)
        ensures
            r == self.spec_apply(v),
    {
        Vec4 { x: self.r0.dot(v), y: self.r1.dot(v), z: self.r2.dot(v), w: self.r3.dot(v) }
    }

    fn row_times(row: Vec4, rhs: Mat4) -> (r: Vec4)
        ensures
            r == Mat4::spec_row_times(row, rhs),
    {
        let c0: Vec4 = Vec4 { x: rhs.r0.x, y: rhs.r1.x, z: rhs.r2.x, w: rhs.r3.x };
        let c1: Vec4 = Vec4 { x: rhs.r0.y, y: rhs.r1.y, z: rhs.r2.y, w: rhs.r3.y };
        let c2: Vec4 = Vec4 { x: rhs.r0.z, y: rhs.r1.z, z: rhs.r2.z, w: rhs.r3.z };
        let c3: Vec4 = Vec4 { x: rhs.r0.w, y: rhs.r1.w, z: rhs.r2.w, w: rhs.r3.w };
        Vec4 { x: row.dot(c0), y: row.dot(c1), z: row.dot(c2), w: row.dot(c3) }
    }

    /// The matrix product `self * rhs`.
    #[verifier::when_used_as_spec(spec_times)]
    pub fn times(self, rhs: Mat4) -> (m: Mat4)
        ensures
            m == self.spec_times(rhs),
    {
        Mat4 {
            r0: Mat4::row_times(self.r0, rhs),
            r1: Mat4::row_times(self.r1, rhs),
            r2: Mat4::row_times(self.r2, rhs),
            r3: Mat4::row_times(self.r3, rhs),
        }
    }
}

impl Mat3 {
    pub open spec fn spec_identity() -> Mat3 {
        Mat3 {
            r0: Vec3 { x: Fixed::one(), y: Fixed::zero(), z: Fixed::zero() },
            r1: Vec3 { x: Fixed::zero(), y: Fixed::one(), z: Fixed::zero() },
            r2: Vec3 { x: Fixed::zero(), y: Fixed::zero(), z: Fixed::one() },
        }
    }

    /// The upper left 3 by 3 block of a 4 by 4 matrix.
    pub open spec fn spec_from_mat4(m: Mat4) -> Mat3 {
        Mat3 {
            r0: Vec3 { x: m.r0.x, y: m.r0.y, z: m.r0.z },
            r1: Vec3 { x: m.r1.x, y: m.r1.y, z: m.r1.z },
            r2: Vec3 { x: m.r2.x, y: m.r2.y, z: m.r2.z },
        }
    }

    pub open spec fn spec_transpose(self) -> Mat3 {
        Mat3 {
            r0: Vec3 { x: self.r0.x, y: self.r1.x, z: self.r2.x },
            r1: Vec3 { x: self.r0.y, y: self.r1.y, z: self.r2.y },
            r2: Vec3 { x: self.r0.z, y: self.r1.z, z: self.r2.z },
        }
    }

    pub open spec fn spec_apply(self, v: Vec3) -> Vec3 {
        Vec3 { x: self.r0.dot(v), y: self.r1.dot(v), z: self.r2.dot(v) }
    }

    /// The determinant of the scaled entries: the determinant of the matrix times 2^48.
    pub open spec fn scaled_determinant(self) -> int {
        self.r0.x@ * minor(self.r1.y@, self.r1.z@, self.r2.y@, self.r2.z@) - self.r0.y@ * minor(
            self.r1.x@,
            self.r1.z@,
            self.r2.x@,
            self.r2.z@,
        ) + self.r0.z@ * minor(self.r1.x@, self.r1.y@, self.r2.x@, self.r2.y@)
    }

    /// One entry of the inverse: a signed 2 by 2 determinant of scaled entries over the scaled
    /// determinant, rounded toward negative infinity and clamped.
    pub open spec fn inverse_entry(cofactor: int, determinant: int) -> Fixed {
        Fixed::from_scaled(floor_div(cofactor * 0x1_0000_0000, determinant))
    }

    /// The inverse by the adjugate formula, or `None` where the determinant is zero.
    pub open spec fn spec_try_inverse(self) -> Option<Mat3> {
        let det = self.scaled_determinant();
        let (a, b, c) = (self.r0.x@, self.r0.y@, self.r0.z@);
        let (d, e, f) = (self.r1.x@, self.r1.y@, self.r1.z@);
        let (g, h, i) = (self.r2.x@, self.r2.y@, self.r2.z@);
        if det == 0 {
            None
        } else {
            Some(
                Mat3 {
                    r0: Vec3 {
                        x: Mat3::inverse_entry(minor(e, f, h, i), det),
                        y: Mat3::inverse_entry(minor(c, b, i, h), det),
                        z: Mat3::inverse_entry(minor(b, c, e, f), det),
                    },
                    r1: Vec3 {
                        x: Mat3::inverse_entry(minor(f, d, i, g), det),
                        y: Mat3::inverse_entry(minor(a, c, g, i), det),
                        z: Mat3::inverse_entry(minor(c, a, f, d), det),
                    },
                    r2: Vec3 {
                        x: Mat3::inverse_entry(minor(d, e, g, h), det),
                        y: Mat3::inverse_entry(minor(b, a, h, g), det),
                        z: Mat3::inverse_entry(minor(a, b, d, e), det),
                    },
                },
            )
        }
    }

    /// The identity matrix.
    #[verifier::when_used_as_spec(spec_identity)]
    pub fn identity() -> (m: Mat3)
        ensures
            m == Mat3::spec_identity(),
    {
        let o: Fixed = Fixed::zero();
        let i: Fixed = Fixed::one();
        Mat3 {
            r0: Vec3 { x: i, y: o, z: o },
            r1: Vec3 { x: o, y: i, z: o },
            r2: Vec3 { x: o, y: o, z: i },
        }
    }

    /// The upper left 3 by 3 block of a 4 by 4 matrix.
    #[verifier::when_used_as_spec(spec_from_mat4)]
    pub fn from_mat4(m: Mat4) -> (r: Mat3)
        ensures
            r == Mat3::spec_from_mat4(m),
    {
        Mat3 {
            r0: Vec3 { x: m.r0.x, y: m.r0.y, z: m.r0.z },
            r1: Vec3 { x: m.r1.x, y: m.r1.y, z: m.r1.z },
            r2: Vec3 { x: m.r2.x, y: m.r2.y, z: m.r2.z },
        }
    }

    /// The transpose.
    #[verifier::when_used_as_spec(spec_transpose)]
    pub fn transpose(self) -> (r: Mat3)
        ensures
            r == self.spec_transpose(),
    {
        Mat3 {
            r0: Vec3 { x: self.r0.x, y: self.r1.x, z: self.r2.x },
            r1: Vec3 { x: self.r0.y, y: self.r1.y, z: self.r2.y },
            r2: Vec3 { x: self.r0.z, y: self.r1.z, z: self.r2.z },
        }
    }

    /// The matrix applied to a column vector.
    #[verifier::when_used_as_spec(spec_apply)]
    pub fn apply(self, v: Vec3) -> (r: Vec3)
        ensures
            r == self.spec_apply(v),
    {
        Vec3 { x: self.r0.dot(v), y: self.r1.dot(v), z: self.r2.dot(v) }
    }

    fn entry_of_inverse(cofactor: i128, determinant: i128) -> (r: Fixed)
        requires
            -0x8000_0000_0000_0000 <= cofactor <= 0x8000_0000_0000_0000,
            determinant != 0,
            i128::MIN < determinant,
        ensures
            r == Mat3::inverse_entry(cofactor as int, determinant as int),
    {
        let numerator: i128 = cofactor * 0x1_0000_0000;
        Fixed { raw: saturate_i128(floor_div_i128(numerator, determinant)) }
    }

    /// The inverse, or `None` where the determinant is zero.
    #[verifier::when_used_as_spec(spec_try_inverse)]
    pub fn try_inverse(self) -> (r: Option<Mat3>)
        ensures
            r == self.spec_try_inverse(),
    {
        let (a, b, c): (i32, i32, i32) = (self.r0.x.raw, self.r0.y.raw, self.r0.z.raw);
        let (d, e, f): (i32, i32, i32) = (self.r1.x.raw, self.r1.y.raw, self.r1.z.raw);
        let (g, h, i): (i32, i32, i32) = (self.r2.x.raw, self.r2.y.raw, self.r2.z.raw);
        let det: i128 = raw_mul_minor(a, raw_minor(e, f, h, i)) - raw_mul_minor(
            b,
            raw_minor(d, f, g, i),
        ) + raw_mul_minor(c, raw_minor(d, e, g, h));
        if det == 0 {
            None
        } else {
            Some(
                Mat3 {
                    r0: Vec3 {
                        x: Mat3::entry_of_inverse(raw_minor(e, f, h, i), det),
                        y: Mat3::entry_of_inverse(raw_minor(c, b, i, h), det),
                        z: Mat3::entry_of_inverse(raw_minor(b, c, e, f), det),
                    },
                    r1: Vec3 {
                        x: Mat3::entry_of_inverse(raw_minor(f, d, i, g), det),
                        y: Mat3::entry_of_inverse(raw_minor(a, c, g, i), det),
                        z: Mat3::entry_of_inverse(raw_minor(c, a, f, d), det),
                    },
                    r2: Vec3 {
                        x: Mat3::entry_of_inverse(raw_minor(d, e, g, h), det),
                        y: Mat3::entry_of_inverse(raw_minor(b, a, h, g), det),
                        z: Mat3::entry_of_inverse(raw_minor(a, b, d, e), det),
                    },
                },
            )
        }
    }
}

} // verus!
