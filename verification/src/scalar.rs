//! Scalar and small-vector value types.
//!
//! A [`Scalar`] carries the bit pattern of one IEEE-754 single-precision
//! value. The library stores, moves and compares these patterns but never
//! performs arithmetic on them; the unverified shell (and the tests) convert
//! them to native floating-point values at the boundary.

use vstd::prelude::*;

verus! {

/// Bit pattern of 0.0.
pub const BITS_ZERO: u32 = 0x0000_0000;

/// Bit pattern of 1.0.
pub const BITS_ONE: u32 = 0x3F80_0000;

/// One scalar quantity, held as the raw bits of an IEEE-754 single.
#[derive(Clone, Copy, PartialEq, Eq, Structural, Debug)]
pub struct Scalar {
    pub bits: u32,
}

impl Scalar {
    /// The scalar with the given bit pattern.
    pub fn new(bits: u32) -> (r: Scalar)
        ensures
            r.bits == bits,
    {
        Scalar { bits }
    }

    /// The scalar zero.
    pub fn zero() -> (r: Scalar)
        ensures
            r == (Scalar { bits: BITS_ZERO }),
    {
        Scalar { bits: BITS_ZERO }
    }

    /// The scalar one.
    pub fn one() -> (r: Scalar)
        ensures
            r == (Scalar { bits: BITS_ONE }),
    {
        Scalar { bits: BITS_ONE }
    }
}

/// A pair of scalars: a texture coordinate or a cursor position.
#[derive(Clone, Copy, PartialEq, Eq, Structural, Debug)]
pub struct Vec2 {
    pub x: Scalar,
    pub y: Scalar,
}

impl Vec2 {
    pub fn new(x: Scalar, y: Scalar) -> (r: Vec2)
        ensures
            r == (Vec2 { x, y }),
    {
        Vec2 { x, y }
    }

    /// The origin of the plane.
    pub fn zeros() -> (r: Vec2)
        ensures
            r == (Vec2 { x: Scalar { bits: BITS_ZERO }, y: Scalar { bits: BITS_ZERO } }),
    {
        Vec2 { x: Scalar::zero(), y: Scalar::zero() }
    }
}

/// A triple of scalars: a point, a direction or a colour.
#[derive(Clone, Copy, PartialEq, Eq, Structural, Debug)]
pub struct Vec3 {
    pub x: Scalar,
    pub y: Scalar,
    pub z: Scalar,
}

impl Vec3 {
    pub fn new(x: Scalar, y: Scalar, z: Scalar) -> (r: Vec3)
        ensures
            r == (Vec3 { x, y, z }),
    {
        Vec3 { x, y, z }
    }

    /// The origin of space.
    pub fn zeros() -> (r: Vec3)
        ensures
            r == spec_vec3_zeros(),
    {
        Vec3 { x: Scalar::zero(), y: Scalar::zero(), z: Scalar::zero() }
    }

    /// The vector whose three components are all one.
    pub fn ones() -> (r: Vec3)
        ensures
            r == spec_vec3_ones(),
    {
        Vec3 { x: Scalar::one(), y: Scalar::one(), z: Scalar::one() }
    }
}

/// The zero vector, as a specification value.
pub open spec fn spec_vec3_zeros() -> Vec3 {
    Vec3 {
        x: Scalar { bits: BITS_ZERO },
        y: Scalar { bits: BITS_ZERO },
        z: Scalar { bits: BITS_ZERO },
    }
}

/// The all-ones vector, as a specification value.
pub open spec fn spec_vec3_ones() -> Vec3 {
    Vec3 {
        x: Scalar { bits: BITS_ONE },
        y: Scalar { bits: BITS_ONE },
        z: Scalar { bits: BITS_ONE },
    }
}

/// A quadruple of scalars: one column of a matrix, or a colour with alpha.
#[derive(Clone, Copy, PartialEq, Eq, Structural, Debug)]
pub struct Vec4 {
    pub x: Scalar,
    pub y: Scalar,
    pub z: Scalar,
    pub w: Scalar,
}

impl Vec4 {
    pub fn new(x: Scalar, y: Scalar, z: Scalar, w: Scalar) -> (r: Vec4)
        ensures
            r == (Vec4 { x, y, z, w }),
    {
        Vec4 { x, y, z, w }
    }
}

/// A 4x4 matrix of scalars, stored as four columns as the graphics API
/// expects them. The library carries matrices; it never multiplies them.
#[derive(Clone, Copy, PartialEq, Eq, Structural, Debug)]
pub struct Mat4 {
    pub c0: Vec4,
    pub c1: Vec4,
    pub c2: Vec4,
    pub c3: Vec4,
}

impl Mat4 {
    pub fn new(c0: Vec4, c1: Vec4, c2: Vec4, c3: Vec4) -> (r: Mat4)
        ensures
            r == (Mat4 { c0, c1, c2, c3 }),
    {
        Mat4 { c0, c1, c2, c3 }
    }

    /// The identity matrix.
    pub fn identity() -> (r: Mat4)
        ensures
            r == spec_mat4_identity(),
    {
        let o = Scalar::one();
        let z = Scalar::zero();
        Mat4 {
            c0: Vec4 { x: o, y: z, z: z, w: z },
            c1: Vec4 { x: z, y: o, z: z, w: z },
            c2: Vec4 { x: z, y: z, z: o, w: z },
            c3: Vec4 { x: z, y: z, z: z, w: o },
        }
    }
}

/// The identity matrix, as a specification value.
pub open spec fn spec_mat4_identity() -> Mat4 {
    let o = Scalar { bits: BITS_ONE };
    let z = Scalar { bits: BITS_ZERO };
    Mat4 {
        c0: Vec4 { x: o, y: z, z: z, w: z },
        c1: Vec4 { x: z, y: o, z: z, w: z },
        c2: Vec4 { x: z, y: z, z: o, w: z },
        c3: Vec4 { x: z, y: z, z: z, w: o },
    }
}

/// Copies a buffer of plain values element for element.
pub fn copy_items<T: Copy>(v: &Vec<T>) -> (r: Vec<T>)
    ensures
        r@ == v@,
{
    let mut r: Vec<T> = Vec::new();
    let mut i: usize = 0;
    while i < v.len()
        invariant
            i <= v@.len(),
            r@ == v@.take(i as int),
        decreases v@.len() - i,
    {
        r.push(v[i]);
        proof {
            assert(r@ =~= v@.take(i + 1));
        }
        i = i + 1;
    }
    proof {
        assert(v@.take(v@.len() as int) =~= v@);
    }
    r
}

} // verus!
