//! Plain-value carriers for the linear-algebra collaborators.
//!
//! The engine core never interprets vector or matrix contents: it stores
//! them, stages them, and hands them to the renderer. Each scalar cell is
//! carried as the raw bit pattern of a 32-bit IEEE-754 float, so the core
//! can move the values around without doing any floating-point work itself.

use vstd::prelude::*;

verus! {

/// The bit pattern of the 32-bit float `0.0`.
pub const SCALAR_ZERO_BITS: u32 = 0x0000_0000;

/// The bit pattern of the 32-bit float `1.0`.
pub const SCALAR_ONE_BITS: u32 = 0x3F80_0000;

/// A two-component vector of scalar bit patterns.
#[derive(Copy, Clone, Debug, PartialEq, Eq, Structural)]
pub struct Vec2 {
    pub x: u32,
    pub y: u32,
}

/// A three-component vector of scalar bit patterns.
#[derive(Copy, Clone, Debug, PartialEq, Eq, Structural)]
pub struct Vec3 {
    pub x: u32,
    pub y: u32,
    pub z: u32,
}

/// A four-component vector of scalar bit patterns.
#[derive(Copy, Clone, Debug, PartialEq, Eq, Structural)]
pub struct Vec4 {
    pub x: u32,
    pub y: u32,
    pub z: u32,
    pub w: u32,
}

/// A four-by-four matrix of scalar bit patterns, stored by rows.
#[derive(Copy, Clone, Debug, PartialEq, Eq, Structural)]
pub struct Mat4 {
    pub r0: Vec4,
    pub r1: Vec4,
    pub r2: Vec4,
    pub r3: Vec4,
}

impl Vec2 {
    pub fn new(x: u32, y: u32) -> (r: Vec2)
        ensures
            r == (Vec2 { x, y }),
    {
        Vec2 { x, y }
    }
}

impl Vec3 {
    pub fn new(x: u32, y: u32, z: u32) -> (r: Vec3)
        ensures
            r == (Vec3 { x, y, z }),
    {
        Vec3 { x, y, z }
    }

    /// The vector whose every component is the float `0.0`.
    pub open spec fn spec_zero() -> Vec3 {
        Vec3 { x: SCALAR_ZERO_BITS, y: SCALAR_ZERO_BITS, z: SCALAR_ZERO_BITS }
    }

    /// The vector whose every component is the float `1.0`.
    pub open spec fn spec_one() -> Vec3 {
        Vec3 { x: SCALAR_ONE_BITS, y: SCALAR_ONE_BITS, z: SCALAR_ONE_BITS }
    }

    /// The vector whose every component is the float `0.0`.
    pub fn zero() -> (r: Vec3)
        ensures
            r == Vec3::spec_zero(),
    {
        Vec3 { x: SCALAR_ZERO_BITS, y: SCALAR_ZERO_BITS, z: SCALAR_ZERO_BITS }
    }

    /// The vector whose every component is the float `1.0`.
    pub fn one() -> (r: Vec3)
        ensures
            r == Vec3::spec_one(),
    {
        Vec3 { x: SCALAR_ONE_BITS, y: SCALAR_ONE_BITS, z: SCALAR_ONE_BITS }
    }
}

impl Vec4 {
    pub fn new(x: u32, y: u32, z: u32, w: u32) -> (r: Vec4)
        ensures
            r == (Vec4 { x, y, z, w }),
    {
        Vec4 { x, y, z, w }
    }
}

impl Mat4 {
    pub fn new(r0: Vec4, r1: Vec4, r2: Vec4, r3: Vec4) -> (r: Mat4)
        ensures
            r == (Mat4 { r0, r1, r2, r3 }),
    {
        Mat4 { r0, r1, r2, r3 }
    }

    /// The identity matrix, as float bit patterns.
    pub fn identity() -> (r: Mat4)
        ensures
            r.r0.x == SCALAR_ONE_BITS,
            r.r1.y == SCALAR_ONE_BITS,
            r.r2.z == SCALAR_ONE_BITS,
            r.r3.w == SCALAR_ONE_BITS,
            r.r0.y == SCALAR_ZERO_BITS && r.r0.z == SCALAR_ZERO_BITS && r.r0.w == SCALAR_ZERO_BITS,
            r.r1.x == SCALAR_ZERO_BITS && r.r1.z == SCALAR_ZERO_BITS && r.r1.w == SCALAR_ZERO_BITS,
            r.r2.x == SCALAR_ZERO_BITS && r.r2.y == SCALAR_ZERO_BITS && r.r2.w == SCALAR_ZERO_BITS,
            r.r3.x == SCALAR_ZERO_BITS && r.r3.y == SCALAR_ZERO_BITS && r.r3.z == SCALAR_ZERO_BITS,
    {
        Mat4 {
            r0: Vec4 { x: SCALAR_ONE_BITS, y: SCALAR_ZERO_BITS, z: SCALAR_ZERO_BITS, w: SCALAR_ZERO_BITS },
            r1: Vec4 { x: SCALAR_ZERO_BITS, y: SCALAR_ONE_BITS, z: SCALAR_ZERO_BITS, w: SCALAR_ZERO_BITS },
            r2: Vec4 { x: SCALAR_ZERO_BITS, y: SCALAR_ZERO_BITS, z: SCALAR_ONE_BITS, w: SCALAR_ZERO_BITS },
            r3: Vec4 { x: SCALAR_ZERO_BITS, y: SCALAR_ZERO_BITS, z: SCALAR_ZERO_BITS, w: SCALAR_ONE_BITS },
        }
    }
}

} // verus!
