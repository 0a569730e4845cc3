//! Color and position transforms for filters.
//!
//! The renderer never does arithmetic on these matrices; it only stores them,
//! selects them, and serializes them for the shader. Each entry is therefore
//! kept as the bit pattern of the IEEE 754 single-precision value it denotes,
//! which the packer writes out verbatim.

use vstd::prelude::*;

verus! {

/// Bit pattern of single-precision `1.0`.
pub const ONE_BITS: u32 = 0x3F80_0000;

/// Bit pattern of single-precision `-1.0`.
pub const NEG_ONE_BITS: u32 = 0xBF80_0000;

/// A 3x3 transform, entries in column-major order, each an IEEE 754
/// single-precision bit pattern.
#[derive(Clone, Copy, Debug)]
pub struct Mat3 {
    pub entries: [u32; 9],
}

/// A 4x4 transform, entries in column-major order, each an IEEE 754
/// single-precision bit pattern.
#[derive(Clone, Copy, Debug)]
pub struct Mat4 {
    pub entries: [u32; 16],
}

/// A two-component vector of IEEE 754 single-precision bit patterns.
#[derive(Clone, Copy, Debug)]
pub struct Vec2 {
    pub x: u32,
    pub y: u32,
}

pub open spec fn spec_mat3_identity() -> Seq<u32> {
    seq![
        ONE_BITS, 0u32, 0u32,
        0u32, ONE_BITS, 0u32,
        0u32, 0u32, ONE_BITS,
    ]
}

pub open spec fn spec_mat3_scaling(factor: u32) -> Seq<u32> {
    seq![
        factor, 0u32, 0u32,
        0u32, factor, 0u32,
        0u32, 0u32, ONE_BITS,
    ]
}

pub open spec fn spec_mat4_diagonal(d0: u32, d1: u32, d2: u32, d3: u32) -> Seq<u32> {
    seq![
        d0, 0u32, 0u32, 0u32,
        0u32, d1, 0u32, 0u32,
        0u32, 0u32, d2, 0u32,
        0u32, 0u32, 0u32, d3,
    ]
}

pub open spec fn spec_mat4_identity() -> Seq<u32> {
    spec_mat4_diagonal(ONE_BITS, ONE_BITS, ONE_BITS, ONE_BITS)
}

impl Mat3 {
    pub fn identity() -> (r: Mat3)
        ensures
            r.entries@ == spec_mat3_identity(),
    {
        let r = Mat3 {
            entries: [
                ONE_BITS, 0, 0,
                0, ONE_BITS, 0,
                0, 0, ONE_BITS,
            ],
        };
        proof {
            assert(r.entries@ =~= spec_mat3_identity());
        }
        r
    }

    /// A uniform scaling by the value whose bit pattern is `factor`.
    pub fn scaling(factor: u32) -> (r: Mat3)
        ensures
            r.entries@ == spec_mat3_scaling(factor),
    {
        let r = Mat3 {
            entries: [
                factor, 0, 0,
                0, factor, 0,
                0, 0, ONE_BITS,
            ],
        };
        proof {
            assert(r.entries@ =~= spec_mat3_scaling(factor));
        }
        r
    }
}

impl Mat4 {
    pub fn identity() -> (r: Mat4)
        ensures
            r.entries@ == spec_mat4_identity(),
    {
        Mat4::from_diagonal(ONE_BITS, ONE_BITS, ONE_BITS, ONE_BITS)
    }

    /// The diagonal matrix with the given bit patterns on the diagonal.
    pub fn from_diagonal(d0: u32, d1: u32, d2: u32, d3: u32) -> (r: Mat4)
        ensures
            r.entries@ == spec_mat4_diagonal(d0, d1, d2, d3),
    {
        let r = Mat4 {
            entries: [
                d0, 0, 0, 0,
                0, d1, 0, 0,
                0, 0, d2, 0,
                0, 0, 0, d3,
            ],
        };
        proof {
            assert(r.entries@ =~= spec_mat4_diagonal(d0, d1, d2, d3));
        }
        r
    }
}

impl Vec2 {
    pub fn zero() -> (r: Vec2)
        ensures
            r.x == 0 && r.y == 0,
    {
        Vec2 { x: 0, y: 0 }
    }
}

/// The color matrix that inverts the red, green and blue channels while
/// leaving alpha alone.
pub fn invert_color() -> (r: Mat4)
    ensures
        r.entries@ == spec_mat4_diagonal(NEG_ONE_BITS, NEG_ONE_BITS, NEG_ONE_BITS, ONE_BITS),
{
    Mat4::from_diagonal(NEG_ONE_BITS, NEG_ONE_BITS, NEG_ONE_BITS, ONE_BITS)
}

} // verus!
