//! Vectors and matrices as the renderer carries them.
//!
//! The renderer stores these values and hands them to the device; it never
//! computes with them. Each component is the bit pattern of a
//! single-precision number.

use vstd::prelude::*;

verus! {

/// The bit pattern of `0.0`.
pub const ZERO: u32 = 0;

/// The bit pattern of `1.0`.
pub const ONE: u32 = 0x3f80_0000;

/// The bit pattern of `-1.0`.
pub const MINUS_ONE: u32 = 0xbf80_0000;

/// The bit pattern of `3.0`.
pub const THREE: u32 = 0x4040_0000;

/// A vector of three components.
#[derive(Clone, Copy, Debug, PartialEq, Eq)]
pub struct Vector3 {
    pub x: u32,
    pub y: u32,
    pub z: u32,
}

/// A 4x4 matrix, one column after the other.
#[derive(Clone, Copy, Debug, PartialEq, Eq)]
pub struct Matrix4 {
    pub x: [u32; 4],
    pub y: [u32; 4],
    pub z: [u32; 4],
    pub w: [u32; 4],
}

impl Matrix4 {
    /// The identity matrix: ones on the diagonal and zeros elsewhere.
    pub open spec fn identity_spec() -> Matrix4 {
        Matrix4 {
            x: [ONE, ZERO, ZERO, ZERO],
            y: [ZERO, ONE, ZERO, ZERO],
            z: [ZERO, ZERO, ONE, ZERO],
            w: [ZERO, ZERO, ZERO, ONE],
        }
    }

    /// The identity matrix.
    pub fn identity() -> (matrix: Matrix4)
        ensures
            matrix == Matrix4::identity_spec(),
    {
        Matrix4 {
            x: [ONE, ZERO, ZERO, ZERO],
            y: [ZERO, ONE, ZERO, ZERO],
            z: [ZERO, ZERO, ONE, ZERO],
            w: [ZERO, ZERO, ZERO, ONE],
        }
    }
}

} // verus!
