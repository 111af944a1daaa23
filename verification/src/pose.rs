//! Pose primitives: a 3x4 row-major transform matrix and the
//! application-level position and orientation derived from it.
//!
//! Every numeric component is an IEEE 754 single-precision bit pattern.
//! The translation column of the matrix is taken over as the position
//! with its axis order preserved; no axis remapping happens here.

use vstd::prelude::*;
use crate::f32_bits::F32_ONE_BITS;
use crate::f32_bits::F32_ZERO_BITS;

verus! {

/// A 3D point in the tracking origin's coordinate frame,
/// each component an IEEE 754 single-precision bit pattern.
#[derive(Clone, Copy, Debug, PartialEq, Eq, Structural)]
pub struct Position {
    pub x: u32,
    pub y: u32,
    pub z: u32,
}

/// An orientation quaternion (w the real part),
/// each component an IEEE 754 single-precision bit pattern.
#[derive(Clone, Copy, Debug, PartialEq, Eq, Structural)]
pub struct Rotation {
    pub w: u32,
    pub x: u32,
    pub y: u32,
    pub z: u32,
}

impl Position {
    /// The origin: all components are zero.
    pub fn origin() -> (r: Position)
        ensures
            r == Position::spec_origin(),
    {
        Position { x: F32_ZERO_BITS, y: F32_ZERO_BITS, z: F32_ZERO_BITS }
    }

    pub open spec fn spec_origin() -> Position {
        Position { x: F32_ZERO_BITS, y: F32_ZERO_BITS, z: F32_ZERO_BITS }
    }
}

impl Rotation {
    /// The identity rotation: w is one, the imaginary parts are zero.
    pub fn identity() -> (r: Rotation)
        ensures
            r == Rotation::spec_identity(),
    {
        Rotation { w: F32_ONE_BITS, x: F32_ZERO_BITS, y: F32_ZERO_BITS, z: F32_ZERO_BITS }
    }

    pub open spec fn spec_identity() -> Rotation {
        Rotation { w: F32_ONE_BITS, x: F32_ZERO_BITS, y: F32_ZERO_BITS, z: F32_ZERO_BITS }
    }
}

/// A 3x4 row-major transform matrix as reported by the hardware:
/// columns 0..3 are a 3x3 rotation basis, column 3 is the translation.
/// `mRC` is the entry at row R, column C.
#[derive(Clone, Copy, Debug, PartialEq, Eq, Structural)]
pub struct PoseMatrix {
    pub m00: u32,
    pub m01: u32,
    pub m02: u32,
    pub m03: u32,
    pub m10: u32,
    pub m11: u32,
    pub m12: u32,
    pub m13: u32,
    pub m20: u32,
    pub m21: u32,
    pub m22: u32,
    pub m23: u32,
}

impl PoseMatrix {
    /// The position encoded by the matrix: its translation column,
    /// axis order preserved.
    pub open spec fn spec_position(self) -> Position {
        Position { x: self.m03, y: self.m13, z: self.m23 }
    }

    /// Extracts the translation column as the device position.
    pub fn to_position(&self) -> (r: Position)
        ensures
            r == self.spec_position(),
    {
        Position { x: self.m03, y: self.m13, z: self.m23 }
    }
}

} // verus!
