//! Placement values: position, rotation, scale, and the transform that a
//! drawable owns. Rotation components are Euler angles in degrees. A model
//! matrix is built from a transform by the shell as
//! `translate(position) * rotate(rotation)`, with a trailing uniform scale;
//! the library only records the three parts.

use vstd::prelude::*;

use crate::scalar::Scalar;
use crate::scalar::Vec3;
use crate::scalar::BITS_ONE;

verus! {

/// A point in the scene.
#[derive(Clone, Copy, PartialEq, Eq, Structural, Debug)]
pub struct Position {
    pub x: Scalar,
    pub y: Scalar,
    pub z: Scalar,
}

impl Position {
    /// The origin.
    pub fn new() -> (r: Position)
        ensures
            r == spec_position_origin(),
    {
        Position { x: Scalar::zero(), y: Scalar::zero(), z: Scalar::zero() }
    }

    /// A position with the given components.
    pub fn new_with_default(x: Scalar, y: Scalar, z: Scalar) -> (r: Position)
        ensures
            r == (Position { x, y, z }),
    {
        Position { x, y, z }
    }

    /// The components, as one vector.
    pub fn get(&self) -> (r: Vec3)
        ensures
            r == (Vec3 { x: self.x, y: self.y, z: self.z }),
    {
        Vec3 { x: self.x, y: self.y, z: self.z }
    }

    /// Replaces the components.
    pub fn set(&mut self, x: Scalar, y: Scalar, z: Scalar)
        ensures
            *final(self) == (Position { x, y, z }),
    {
        self.x = x;
        self.y = y;
        self.z = z;
    }
}

/// The origin, as a specification value.
pub open spec fn spec_position_origin() -> Position {
    Position {
        x: Scalar { bits: 0 },
        y: Scalar { bits: 0 },
        z: Scalar { bits: 0 },
    }
}

/// An orientation: Euler angles in degrees around the three axes.
#[derive(Clone, Copy, PartialEq, Eq, Structural, Debug)]
pub struct Rotation {
    pub x: Scalar,
    pub y: Scalar,
    pub z: Scalar,
}

impl Rotation {
    /// No rotation.
    pub fn new() -> (r: Rotation)
        ensures
            r == spec_rotation_zero(),
    {
        Rotation { x: Scalar::zero(), y: Scalar::zero(), z: Scalar::zero() }
    }

    /// A rotation with the given angles.
    pub fn new_with_default(x: Scalar, y: Scalar, z: Scalar) -> (r: Rotation)
        ensures
            r == (Rotation { x, y, z }),
    {
        Rotation { x, y, z }
    }

    /// The angles, as one vector.
    pub fn get(&self) -> (r: Vec3)
        ensures
            r == (Vec3 { x: self.x, y: self.y, z: self.z }),
    {
        Vec3 { x: self.x, y: self.y, z: self.z }
    }

    /// Replaces the angles.
    pub fn set(&mut self, x: Scalar, y: Scalar, z: Scalar)
        ensures
            *final(self) == (Rotation { x, y, z }),
    {
        self.x = x;
        self.y = y;
        self.z = z;
    }
}

/// No rotation, as a specification value.
pub open spec fn spec_rotation_zero() -> Rotation {
    Rotation {
        x: Scalar { bits: 0 },
        y: Scalar { bits: 0 },
        z: Scalar { bits: 0 },
    }
}

/// A uniform scale factor. Defaults to one; zero is legal but degenerates
/// rendering, so nothing rejects it.
#[derive(Clone, Copy, PartialEq, Eq, Structural, Debug)]
pub struct Scale {
    pub scale: Scalar,
}

impl Scale {
    /// The default scale of one.
    pub fn new() -> (r: Scale)
        ensures
            r == spec_scale_one(),
    {
        Scale { scale: Scalar::one() }
    }

    /// A scale with the given factor.
    pub fn new_with_default(scale: Scalar) -> (r: Scale)
        ensures
            r == (Scale { scale }),
    {
        Scale { scale }
    }

    /// The factor.
    pub fn get(&self) -> (r: Scalar)
        ensures
            r == self.scale,
    {
        self.scale
    }

    /// Replaces the factor.
    pub fn set(&mut self, scale: Scalar)
        ensures
            *final(self) == (Scale { scale }),
    {
        self.scale = scale;
    }
}

impl Default for Scale {
    /// The default scale of one.
    fn default() -> (r: Scale)
        ensures
            r == spec_scale_one(),
    {
        Scale { scale: Scalar::one() }
    }
}

/// The unit scale, as a specification value.
pub open spec fn spec_scale_one() -> Scale {
    Scale { scale: Scalar { bits: BITS_ONE } }
}

/// The placement of a drawable: where it stands, how it is turned, and how
/// it is scaled. Owned exclusively by the drawable it configures.
#[derive(Clone, Copy, PartialEq, Eq, Structural, Debug)]
pub struct Transform {
    pub position: Position,
    pub rotation: Rotation,
    pub scale: Scale,
}

impl Transform {
    /// Position, rotation and scale, in that order.
    pub fn get(&self) -> (r: (Vec3, Vec3, Scalar))
        ensures
            r.0 == (Vec3 { x: self.position.x, y: self.position.y, z: self.position.z }),
            r.1 == (Vec3 { x: self.rotation.x, y: self.rotation.y, z: self.rotation.z }),
            r.2 == self.scale.scale,
    {
        (self.position.get(), self.rotation.get(), self.scale.get())
    }
}

impl Default for Transform {
    /// Identity placement: at the origin, unrotated, at unit scale.
    fn default() -> (r: Transform)
        ensures
            r == spec_transform_identity(),
    {
        Transform { position: Position::new(), rotation: Rotation::new(), scale: Scale::new() }
    }
}

/// The identity placement, as a specification value.
pub open spec fn spec_transform_identity() -> Transform {
    Transform {
        position: spec_position_origin(),
        rotation: spec_rotation_zero(),
        scale: spec_scale_one(),
    }
}

} // verus!
