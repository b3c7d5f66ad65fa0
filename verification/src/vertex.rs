//! The vertex data model: a position, a placeholder normal, and two texture
//! coordinate channels. Vertex data is assembled on the CPU side by the
//! importer or by a procedural generator, uploaded once, and may be
//! discarded afterwards.

use vstd::prelude::*;

use crate::scalar::Scalar;
use crate::scalar::Vec2;
use crate::scalar::Vec3;

verus! {

/// One vertex.
#[derive(Clone, Copy, PartialEq, Eq, Structural, Debug)]
pub struct Vertex {
    pub position: Vec3,
    pub normal: Vec3,
    pub tex_coord_0: Vec2,
    pub tex_coord_1: Vec2,
}

/// The default vertex, as a specification value: at the origin, with the
/// placeholder normal of all ones — no normal is ever computed — and both
/// texture coordinate channels zero.
pub open spec fn spec_vertex_default() -> Vertex {
    Vertex {
        position: crate::scalar::spec_vec3_zeros(),
        normal: crate::scalar::spec_vec3_ones(),
        tex_coord_0: Vec2 { x: Scalar { bits: 0 }, y: Scalar { bits: 0 } },
        tex_coord_1: Vec2 { x: Scalar { bits: 0 }, y: Scalar { bits: 0 } },
    }
}

impl Default for Vertex {
    /// Position and texture coordinates zero; the normal is the
    /// placeholder of all ones.
    fn default() -> (r: Vertex)
        ensures
            r == spec_vertex_default(),
    {
        Vertex {
            position: Vec3::zeros(),
            normal: Vec3::ones(),
            tex_coord_0: Vec2::zeros(),
            tex_coord_1: Vec2::zeros(),
        }
    }
}

impl Vertex {
    /// The position components, as an array.
    pub fn pos_to_array(&self) -> (r: [Scalar; 3])
        ensures
            r@ == seq![self.position.x, self.position.y, self.position.z],
    {
        let pos = self.position;
        let r = [pos.x, pos.y, pos.z];
        proof {
            assert(r@ =~= seq![self.position.x, self.position.y, self.position.z]);
        }
        r
    }
}

} // verus!
