//! Meshes and models. A model owns one transform and an ordered list of
//! meshes; each mesh owns an ordered list of primitives. All meshes of a
//! model share the model's transform, so they move together. Drawing a
//! model concatenates the draw commands of its primitives in order.

use vstd::prelude::*;

use crate::commands::RenderCommand;
use crate::primitive::spec_primitive_commands;
use crate::primitive::Primitive;
use crate::scalar::Mat4;
use crate::scalar::Scalar;
use crate::transform::Position;
use crate::transform::Transform;

verus! {

/// The draw commands of a list of primitives, in order.
pub open spec fn spec_primitives_commands(
    ps: Seq<Primitive>,
    proj: Mat4,
    view_matrix: Mat4,
    model: Transform,
) -> Seq<RenderCommand>
    decreases ps.len(),
{
    if ps.len() == 0 {
        Seq::empty()
    } else {
        spec_primitives_commands(ps.drop_last(), proj, view_matrix, model)
            + spec_primitive_commands(ps.last(), proj, view_matrix, model)
    }
}

/// An ordered list of primitives drawn with a shared transform.
#[derive(Clone, PartialEq, Debug)]
pub struct Mesh {
    pub primitives: Vec<Primitive>,
}

/// The draw commands of one mesh.
pub open spec fn spec_mesh_commands(
    m: Mesh,
    proj: Mat4,
    view_matrix: Mat4,
    model: Transform,
) -> Seq<RenderCommand> {
    spec_primitives_commands(m.primitives@, proj, view_matrix, model)
}

/// The draw commands of a list of meshes, in order.
pub open spec fn spec_meshes_commands(
    ms: Seq<Mesh>,
    proj: Mat4,
    view_matrix: Mat4,
    model: Transform,
) -> Seq<RenderCommand>
    decreases ms.len(),
{
    if ms.len() == 0 {
        Seq::empty()
    } else {
        spec_meshes_commands(ms.drop_last(), proj, view_matrix, model)
            + spec_mesh_commands(ms.last(), proj, view_matrix, model)
    }
}

impl Mesh {
    /// A mesh over the given primitives.
    pub fn new(primitives: Vec<Primitive>) -> (r: Mesh)
        ensures
            r.primitives == primitives,
    {
        Mesh { primitives }
    }

    /// The draw commands of every primitive of this mesh, in order, all
    /// placed by the given transform.
    pub fn draw(&self, proj: Mat4, view_matrix: Mat4, transform: &Transform) -> (r: Vec<
        RenderCommand,
    >)
        ensures
            r@ == spec_mesh_commands(*self, proj, view_matrix, *transform),
    {
        let mut r: Vec<RenderCommand> = Vec::new();
        let mut i: usize = 0;
        while i < self.primitives.len()
            invariant
                i <= self.primitives@.len(),
                r@ == spec_primitives_commands(
                    self.primitives@.take(i as int),
                    proj,
                    view_matrix,
                    *transform,
                ),
            decreases self.primitives@.len() - i,
        {
            let mut cmds = self.primitives[i].shader_config(proj, view_matrix, transform);
            r.append(&mut cmds);
            proof {
                let taken = self.primitives@.take(i + 1);
                assert(taken.drop_last() =~= self.primitives@.take(i as int));
                assert(taken.last() == self.primitives@[i as int]);
            }
            i = i + 1;
        }
        proof {
            assert(self.primitives@.take(self.primitives@.len() as int) =~= self.primitives@);
        }
        r
    }
}

/// An ordered list of meshes.
pub type Meshes = Vec<Mesh>;

/// An imported model: one transform shared by an ordered list of meshes.
/// By design only its position is adjustable from outside; colour tinting
/// and uniform scaling are deliberate no-ops for imported geometry.
#[derive(Clone, PartialEq, Debug)]
pub struct Model {
    pub transform: Transform,
    pub meshes: Meshes,
}

/// The draw commands of one model: the commands of its meshes in order,
/// all placed by the model's transform.
pub open spec fn spec_model_commands(m: Model, proj: Mat4, view_matrix: Mat4) -> Seq<
    RenderCommand,
> {
    spec_meshes_commands(m.meshes@, proj, view_matrix, m.transform)
}

impl Model {
    /// A model over the given transform and meshes.
    pub fn new(transform: Transform, meshes: Meshes) -> (r: Model)
        ensures
            r.transform == transform,
            r.meshes == meshes,
    {
        Model { transform, meshes }
    }

    /// Moves the model; rotation and scale are untouched.
    pub fn set_position(&mut self, x: Scalar, y: Scalar, z: Scalar)
        ensures
            *final(self) == (Model {
                transform: Transform {
                    position: Position { x, y, z },
                    ..old(self).transform
                },
                ..*old(self)
            }),
    {
        self.transform.position.set(x, y, z);
    }

    /// The draw commands of every mesh of this model, in order.
    pub fn render(&self, proj: Mat4, view_matrix: Mat4) -> (r: Vec<RenderCommand>)
        ensures
            r@ == spec_model_commands(*self, proj, view_matrix),
    {
        let mut r: Vec<RenderCommand> = Vec::new();
        let mut i: usize = 0;
        while i < self.meshes.len()
            invariant
                i <= self.meshes@.len(),
                r@ == spec_meshes_commands(
                    self.meshes@.take(i as int),
                    proj,
                    view_matrix,
                    self.transform,
                ),
            decreases self.meshes@.len() - i,
        {
            let mut cmds = self.meshes[i].draw(proj, view_matrix, &self.transform);
            r.append(&mut cmds);
            proof {
                let taken = self.meshes@.take(i + 1);
                assert(taken.drop_last() =~= self.meshes@.take(i as int));
                assert(taken.last() == self.meshes@[i as int]);
            }
            i = i + 1;
        }
        proof {
            assert(self.meshes@.take(self.meshes@.len() as int) =~= self.meshes@);
        }
        r
    }

    /// This drawable's kind.
    pub fn get_type(&self) -> (r: crate::scene::ObjectTypes)
        ensures
            r == crate::scene::ObjectTypes::MODEL,
    {
        crate::scene::ObjectTypes::MODEL
    }

    /// Colour tinting is a no-op for imported models, by design.
    pub fn set_color(&self, _var_name: &str, _rgb: crate::scalar::Vec3) -> (r: Vec<
        RenderCommand,
    >)
        ensures
            r@ == Seq::<RenderCommand>::empty(),
    {
        let r: Vec<RenderCommand> = Vec::new();
        r
    }

    /// Uniform scaling is a no-op for imported models, by design.
    pub fn set_scale(&mut self, _scale: Scalar)
        ensures
            *final(self) == *old(self),
    {
    }
}

} // verus!
