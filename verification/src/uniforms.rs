//! The read-only bundle that one draw call shades with, and the matrices that go into it.

use vstd::prelude::*;
use crate::fixed::Fixed;
use crate::linalg::Mat4;
use crate::linalg::Vec3;
use crate::linalg::Vec4;

verus! {

/// Which surface a draw call shades.
#[allow(non_camel_case_types)]
#[derive(Clone, Copy, Debug, PartialEq, Eq, Structural)]
pub enum CelestialBody {
    earth,
    Moon,
    sun,
    gas,
    rocky,
    nave,
    star,
}

impl CelestialBody {
    /// Whether a shading recipe exists for this surface. Shading any other surface is a
    /// mistake of the caller.
    pub open spec fn spec_has_recipe(self) -> bool {
        self is earth || self is Moon || self is sun || self is gas || self is rocky
    }

    /// Whether a shading recipe exists for this surface.
    #[verifier::when_used_as_spec(spec_has_recipe)]
    pub fn has_recipe(self) -> (r: bool)
        ensures
            r == self.spec_has_recipe(),
    {
        match self {
            CelestialBody::earth => true,
            CelestialBody::Moon => true,
            CelestialBody::sun => true,
            CelestialBody::gas => true,
            CelestialBody::rocky => true,
            CelestialBody::nave => false,
            CelestialBody::star => false,
        }
    }
}

/// What one draw call reads: the four transform matrices, the frame counter and the surface to
/// shade.
#[derive(Clone, Copy, Debug, PartialEq, Eq, Structural)]
pub struct Uniforms {
    pub model_matrix: Mat4,
    pub view_matrix: Mat4,
    pub projection_matrix: Mat4,
    pub viewport_matrix: Mat4,
    pub time: u32,
    pub current_body: CelestialBody,
}

/// The rotation about the x axis by the angle with the given sine and cosine.
pub open spec fn rotation_x(sin: Fixed, cos: Fixed) -> Mat4 {
    let o = Fixed::zero();
    let i = Fixed::one();
    Mat4 {
        r0: Vec4 { x: i, y: o, z: o, w: o },
        r1: Vec4 { x: o, y: cos, z: sin.spec_neg(), w: o },
        r2: Vec4 { x: o, y: sin, z: cos, w: o },
        r3: Vec4 { x: o, y: o, z: o, w: i },
    }
}

/// The rotation about the y axis by the angle with the given sine and cosine.
pub open spec fn rotation_y(sin: Fixed, cos: Fixed) -> Mat4 {
    let o = Fixed::zero();
    let i = Fixed::one();
    Mat4 {
        r0: Vec4 { x: cos, y: o, z: sin, w: o },
        r1: Vec4 { x: o, y: i, z: o, w: o },
        r2: Vec4 { x: sin.spec_neg(), y: o, z: cos, w: o },
        r3: Vec4 { x: o, y: o, z: o, w: i },
    }
}

/// The rotation about the z axis by the angle with the given sine and cosine.
pub open spec fn rotation_z(sin: Fixed, cos: Fixed) -> Mat4 {
    let o = Fixed::zero();
    let i = Fixed::one();
    Mat4 {
        r0: Vec4 { x: cos, y: sin.spec_neg(), z: o, w: o },
        r1: Vec4 { x: sin, y: cos, z: o, w: o },
        r2: Vec4 { x: o, y: o, z: i, w: o },
        r3: Vec4 { x: o, y: o, z: o, w: i },
    }
}

/// The matrix that scales uniformly and then translates.
pub open spec fn scale_then_translate(translation: Vec3, scale: Fixed) -> Mat4 {
    let o = Fixed::zero();
    let i = Fixed::one();
    Mat4 {
        r0: Vec4 { x: scale, y: o, z: o, w: translation.x },
        r1: Vec4 { x: o, y: scale, z: o, w: translation.y },
        r2: Vec4 { x: o, y: o, z: scale, w: translation.z },
        r3: Vec4 { x: o, y: o, z: o, w: i },
    }
}

/// The model matrix: rotate about x, then y, then z, then scale, then translate.
pub open spec fn spec_create_model_matrix(
    translation: Vec3,
    scale: Fixed,
    sin: Vec3,
    cos: Vec3,
) -> Mat4 {
    scale_then_translate(translation, scale).spec_times(
        rotation_z(sin.z, cos.z).spec_times(rotation_y(sin.y, cos.y)).spec_times(
            rotation_x(sin.x, cos.x),
        ),
    )
}

/// The matrix that maps normalized device coordinates to pixels, with the y axis pointing down.
pub open spec fn spec_create_viewport_matrix(width: Fixed, height: Fixed) -> Mat4 {
    let o = Fixed::zero();
    let i = Fixed::one();
    let two = Fixed::spec_from_int(2);
    Mat4 {
        r0: Vec4 { x: width.spec_over(two), y: o, z: o, w: width.spec_over(two) },
        r1: Vec4 { x: o, y: height.spec_neg().spec_over(two), z: o, w: height.spec_over(two) },
        r2: Vec4 { x: o, y: o, z: i, w: o },
        r3: Vec4 { x: o, y: o, z: o, w: i },
    }
}

/// Builds the model matrix of an object from its translation, its uniform scale and the sines
/// and cosines of its three Euler angles. The rotation about x is applied first, then the one
/// about y, then the one about z, then the scale, then the translation.
#[verifier::when_used_as_spec(spec_create_model_matrix)]
pub fn create_model_matrix(translation: Vec3, scale: Fixed, sin: Vec3, cos: Vec3) -> (m: Mat4)
    ensures
        m == spec_create_model_matrix(translation, scale, sin, cos),
{
    let o: Fixed = Fixed::zero();
    let i: Fixed = Fixed::one();
    let rotation_matrix_x: Mat4 = Mat4::new(
        i, o, o, o,
        o, cos.x, sin.x.neg(), o,
        o, sin.x, cos.x, o,
        o, o, o, i,
    );
    let rotation_matrix_y: Mat4 = Mat4::new(
        cos.y, o, sin.y, o,
        o, i, o, o,
        sin.y.neg(), o, cos.y, o,
        o, o, o, i,
    );
    let rotation_matrix_z: Mat4 = Mat4::new(
        cos.z, sin.z.neg(), o, o,
        sin.z, cos.z, o, o,
        o, o, i, o,
        o, o, o, i,
    );
    let rotation_matrix: Mat4 = rotation_matrix_z.times(rotation_matrix_y).times(rotation_matrix_x);
    let transform_matrix: Mat4 = Mat4::new(
        scale, o, o, translation.x,
        o, scale, o, translation.y,
        o, o, scale, translation.z,
        o, o, o, i,
    );
    transform_matrix.times(rotation_matrix)
}

/// Builds the viewport matrix for a screen of the given size in pixels.
#[verifier::when_used_as_spec(spec_create_viewport_matrix)]
pub fn create_viewport_matrix(width: Fixed, height: Fixed) -> (m: Mat4)
    ensures
        m == spec_create_viewport_matrix(width, height),
{
    let o: Fixed = Fixed::zero();
    let i: Fixed = Fixed::one();
    let two: Fixed = Fixed::from_int(2);
    Mat4::new(
        width.over(two), o, o, width.over(two),
        o, height.neg().over(two), o, height.over(two),
        o, o, i, o,
        o, o, o, i,
    )
}

} // verus!
