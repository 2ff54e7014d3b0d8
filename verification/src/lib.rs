//! A fixed-function software rendering pipeline.
//!
//! A draw call takes a mesh of object-space vertices and a bundle of transform matrices to
//! shaded pixels in a depth-tested framebuffer: the vertex transform ([`shaders`]), the
//! rasterizer ([`triangle`]), the procedural shading recipes ([`shaders`]), the depth test
//! ([`framebuffer`]) and the draw call that joins them ([`render`]). Around the pipeline stand
//! the bodies of the scene on their orbits ([`orbit`]) and the moves that the keyboard asks of
//! the camera ([`input`]).
//!
//! All numbers are saturating 16.16 fixed-point numbers ([`fixed`]): every result is an exact
//! statement about whole numbers, and no operation overflows or fails. Two things are left to
//! the caller, who hands in their results: the coherent noise field that the recipes color
//! surfaces from, and the sines and cosines of angles.

pub mod color;
pub mod fixed;
pub mod fragment;
pub mod framebuffer;
pub mod input;
pub mod linalg;
pub mod orbit;
pub mod render;
pub mod shaders;
pub mod triangle;
pub mod uniforms;
pub mod vertex;
