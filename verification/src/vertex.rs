//! Mesh vertices.

use vstd::prelude::*;
use crate::color::Color;
use crate::fixed::Fixed;
use crate::linalg::Vec2;
use crate::linalg::Vec3;

verus! {

/// The color of the elevation band that `elevation` falls in: ocean below zero, land below one
/// half, mountain from there on.
pub open spec fn elevation_color(elevation: Fixed) -> Color {
    if elevation@ < 0 {
        Color { r: 0, g: 105, b: 148 }
    } else if elevation@ < 32768 {
        Color { r: 34, g: 139, b: 34 }
    } else {
        Color { r: 139, g: 69, b: 19 }
    }
}

/// A vertex of a mesh. `transformed_position` and `transformed_normal` are filled in by the
/// vertex transform; before it they only repeat the object-space values or are zero.
#[derive(Clone, Copy, Debug, PartialEq, Eq, Structural)]
pub struct Vertex {
    pub position: Vec3,
    pub normal: Vec3,
    pub tex_coords: Vec2,
    pub color: Color,
    pub transformed_position: Vec3,
    pub transformed_normal: Vec3,
    pub elevation: Fixed,
}

impl Vertex {
    /// A black vertex whose transformed position and normal repeat the given ones.
    pub fn new(position: Vec3, normal: Vec3, tex_coords: Vec2, elevation: Fixed) -> (v: Vertex)
        ensures
            v == (Vertex {
                position,
                normal,
                tex_coords,
                color: Color::spec_black(),
                transformed_position: position,
                transformed_normal: normal,
                elevation,
            }),
    {
        Vertex {
            position,
            normal,
            tex_coords,
            color: Color::black(),
            transformed_position: position,
            transformed_normal: normal,
            elevation,
        }
    }

    /// A vertex of the given color at `position`; everything else is zero.
    pub fn new_with_color(position: Vec3, color: Color) -> (v: Vertex)
        ensures
            v == (Vertex {
                position,
                normal: Vec3 { x: Fixed::zero(), y: Fixed::zero(), z: Fixed::zero() },
                tex_coords: Vec2 { x: Fixed::zero(), y: Fixed::zero() },
                color,
                transformed_position: Vec3 {
                    x: Fixed::zero(),
                    y: Fixed::zero(),
                    z: Fixed::zero(),
                },
                transformed_normal: Vec3 { x: Fixed::zero(), y: Fixed::zero(), z: Fixed::zero() },
                elevation: Fixed::zero(),
            }),
    {
        let o: Fixed = Fixed::zero();
        Vertex {
            position,
            normal: Vec3 { x: o, y: o, z: o },
            tex_coords: Vec2 { x: o, y: o },
            color,
            transformed_position: Vec3 { x: o, y: o, z: o },
            transformed_normal: Vec3 { x: o, y: o, z: o },
            elevation: o,
        }
    }

    /// Replaces the transformed position and normal; nothing else changes.
    pub fn set_transformed(&mut self, position: Vec3, normal: Vec3)
        ensures
            *final(self) == (Vertex {
                transformed_position: position,
                transformed_normal: normal,
                ..*old(self)
            }),
    {
        self.transformed_position = position;
        self.transformed_normal = normal;
    }

    /// Recolors the vertex by its elevation band; nothing else changes.
    pub fn update_color_based_on_elevation(&mut self)
        ensures
            *final(self) == (Vertex { color: elevation_color(old(self).elevation), ..*old(self) }),
    {
        if self.elevation.raw < 0 {
            self.color = Color::new(0, 105, 148);
        } else if self.elevation.raw < 32768 {
            self.color = Color::new(34, 139, 34);
        } else {
            self.color = Color::new(139, 69, 19);
        }
    }
}

impl Default for Vertex {
    /// A black vertex at the origin whose normal points up.
    fn default() -> (v: Vertex)
        ensures
            v == (Vertex {
                position: Vec3 { x: Fixed::zero(), y: Fixed::zero(), z: Fixed::zero() },
                normal: Vec3 { x: Fixed::zero(), y: Fixed::one(), z: Fixed::zero() },
                tex_coords: Vec2 { x: Fixed::zero(), y: Fixed::zero() },
                color: Color::spec_black(),
                transformed_position: Vec3 {
                    x: Fixed::zero(),
                    y: Fixed::zero(),
                    z: Fixed::zero(),
                },
                transformed_normal: Vec3 { x: Fixed::zero(), y: Fixed::one(), z: Fixed::zero() },
                elevation: Fixed::zero(),
            }),
    {
        let o: Fixed = Fixed::zero();
        let i: Fixed = Fixed::one();
        Vertex {
            position: Vec3 { x: o, y: o, z: o },
            normal: Vec3 { x: o, y: i, z: o },
            tex_coords: Vec2 { x: o, y: o },
            color: Color::black(),
            transformed_position: Vec3 { x: o, y: o, z: o },
            transformed_normal: Vec3 { x: o, y: i, z: o },
            elevation: o,
        }
    }
}

} // verus!
