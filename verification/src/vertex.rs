//! Geometry scalars and vertices.
//!
//! The pipeline never computes with coordinates itself; it only moves them
//! from documents into vertex buffers. A coordinate is therefore carried as
//! the 64-bit pattern of the IEEE number the document denotes, wrapped in
//! [`Real`]. The one numeric operation — inferring a face normal — is a
//! function the caller supplies (see [`crate::model`]), since numeric work
//! is outside this library's scope.

use vstd::prelude::*;

verus! {

/// A scalar carried as the bit pattern of a 64-bit IEEE number.
#[derive(Copy, Clone, Debug, Eq, PartialEq, Structural)]
pub struct Real(pub u64);

/// A single-scalar vector field.
#[derive(Copy, Clone, Debug, Eq, PartialEq, Structural)]
pub struct Vec1r {
    pub v: Real,
}

/// A four-scalar vector field.
#[derive(Copy, Clone, Debug, Eq, PartialEq, Structural)]
pub struct Vec4r {
    pub x: Real,
    pub y: Real,
    pub z: Real,
    pub w: Real,
}

/// A position or normal: three scalars.
#[derive(Copy, Clone, Debug, Eq, PartialEq, Structural)]
pub struct Vec3r {
    pub x: Real,
    pub y: Real,
    pub z: Real,
}

/// A texture coordinate: two scalars.
#[derive(Copy, Clone, Debug, Eq, PartialEq, Structural)]
pub struct Vec2r {
    pub s: Real,
    pub t: Real,
}

/// One vertex of a face: position, texture coordinate and normal. A plain
/// value with no identity.
#[derive(Copy, Clone, Debug, Eq, PartialEq, Structural)]
pub struct Vertex {
    pub pos: Vec3r,
    pub st: Vec2r,
    pub norm: Vec3r,
}

} // verus!
