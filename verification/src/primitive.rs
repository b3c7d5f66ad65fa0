//! Primitives: one GPU-uploaded vertex buffer, an optional index buffer,
//! and the draw call over them. Construction interleaves the vertex data
//! and fixes the attribute layout; the shell executes the upload and hands
//! the allocated handles back. The triangle-list topology is the only one
//! the engine supports.

use vstd::prelude::*;

use crate::commands::AttributePointer;
use crate::commands::MvpParts;
use crate::commands::PrimitiveUpload;
use crate::commands::RenderCommand;
use crate::scalar::Mat4;
use crate::scalar::Scalar;
use crate::shader::Shader;
use crate::transform::Transform;
use crate::vertex::Vertex;

verus! {

/// Scalars per interleaved vertex: three for position, two for the first
/// texture coordinate channel.
pub const VERTEX_STRIDE: u32 = 5;

/// The five scalars of one interleaved vertex, in buffer order.
pub open spec fn spec_vertex_scalars(v: Vertex) -> Seq<Scalar> {
    seq![v.position.x, v.position.y, v.position.z, v.tex_coord_0.x, v.tex_coord_0.y]
}

/// The interleaved buffer of a vertex list.
pub open spec fn spec_interleave(vs: Seq<Vertex>) -> Seq<Scalar>
    decreases vs.len(),
{
    if vs.len() == 0 {
        Seq::empty()
    } else {
        spec_interleave(vs.drop_last()) + spec_vertex_scalars(vs.last())
    }
}

/// The interleaved buffer holds five scalars per vertex.
pub proof fn lemma_interleave_len(vs: Seq<Vertex>)
    ensures
        spec_interleave(vs).len() == 5 * vs.len(),
    decreases vs.len(),
{
    if vs.len() > 0 {
        lemma_interleave_len(vs.drop_last());
    }
}

/// The attribute layout of the interleaved buffer: position at location
/// zero, the first texture coordinate channel at location one.
pub open spec fn spec_attribute_layout() -> Seq<AttributePointer> {
    seq![
        AttributePointer { location: 0, components: 3, offset: 0, stride: VERTEX_STRIDE },
        AttributePointer { location: 1, components: 2, offset: 3, stride: VERTEX_STRIDE },
    ]
}

/// The draw commands of one primitive: bind its shader, set the
/// model-view-projection uniform, bind the vertex array, then the draw call
/// that its index state selects.
pub open spec fn spec_primitive_commands(
    p: Primitive,
    proj: Mat4,
    view_matrix: Mat4,
    model: Transform,
) -> Seq<RenderCommand> {
    seq![
        RenderCommand::UseProgram { program: p.shader.id },
        RenderCommand::SetMvp {
            program: p.shader.id,
            parts: MvpParts { projection: proj, view_matrix, model },
        },
        RenderCommand::BindVertexArray { vao: p.vao },
        if p.indexed {
            RenderCommand::DrawElements { count: p.num_indices }
        } else {
            RenderCommand::DrawArrays { first: 0, count: p.num_vertices }
        },
    ]
}

/// One drawable unit: counts, handles, and the shader it draws with. The
/// vertex data itself is uploaded once at construction and not kept here.
#[derive(Clone, PartialEq, Debug)]
pub struct Primitive {
    pub vao: u32,
    pub vbo: u32,
    /// Handle of the index buffer, recorded at attach time; present exactly
    /// when the primitive was built with indices.
    pub ebo: Option<u32>,
    pub shader: Shader,
    /// Whether an index stream was supplied at construction.
    pub indexed: bool,
    pub num_indices: u32,
    pub num_vertices: u32,
}

impl Primitive {
    /// Builds a primitive from a vertex list and an optional index list,
    /// together with the one-time upload of its buffers. The upload holds
    /// the interleaved vertex data, the index data as given, and the fixed
    /// attribute layout.
    pub fn new(vertices: &Vec<Vertex>, indices: Option<Vec<u32>>, shader: Shader) -> (r: (
        Primitive,
        PrimitiveUpload,
    ))
        requires
            vertices@.len() <= u32::MAX,
            indices matches Some(ix) ==> ix@.len() <= u32::MAX,
        ensures
            r.0.vao == 0 && r.0.vbo == 0 && r.0.ebo is None,
            r.0.shader == shader,
            r.0.indexed == (indices is Some),
            r.0.num_vertices == vertices@.len(),
            indices matches Some(ix) ==> r.0.num_indices == ix@.len(),
            indices is None ==> r.0.num_indices == 0,
            r.1.vertex_data@ == spec_interleave(vertices@),
            r.1.indices == indices,
            r.1.attributes@ == spec_attribute_layout(),
    {
        let num_vertices = vertices.len() as u32;
        let (indexed, num_indices): (bool, u32) = match &indices {
            Option::Some(ix) => (true, ix.len() as u32),
            Option::None => (false, 0),
        };

        let mut vertex_data: Vec<Scalar> = Vec::new();
        let mut i: usize = 0;
        while i < vertices.len()
            invariant
                i <= vertices@.len(),
                vertex_data@ == spec_interleave(vertices@.take(i as int)),
            decreases vertices@.len() - i,
        {
            let v = vertices[i];
            vertex_data.push(v.position.x);
            vertex_data.push(v.position.y);
            vertex_data.push(v.position.z);
            vertex_data.push(v.tex_coord_0.x);
            vertex_data.push(v.tex_coord_0.y);
            proof {
                let taken = vertices@.take(i + 1);
                assert(taken.drop_last() =~= vertices@.take(i as int));
                assert(vertex_data@ =~= spec_interleave(taken));
            }
            i = i + 1;
        }
        proof {
            assert(vertices@.take(vertices@.len() as int) =~= vertices@);
        }

        let mut attributes: Vec<AttributePointer> = Vec::new();
        attributes.push(
            AttributePointer { location: 0, components: 3, offset: 0, stride: VERTEX_STRIDE },
        );
        attributes.push(
            AttributePointer { location: 1, components: 2, offset: 3, stride: VERTEX_STRIDE },
        );
        proof {
            assert(attributes@ =~= spec_attribute_layout());
        }

        let primitive = Primitive {
            vao: 0,
            vbo: 0,
            ebo: Option::None,
            shader,
            indexed,
            num_indices,
            num_vertices,
        };
        let upload = PrimitiveUpload { vertex_data, indices, attributes };
        (primitive, upload)
    }

    /// Records the handles that the shell allocated when it executed the
    /// upload. An index-buffer handle is given exactly when the primitive
    /// was built with indices.
    pub fn attach(&mut self, vao: u32, vbo: u32, ebo: Option<u32>)
        requires
            (ebo is Some) == old(self).indexed,
        ensures
            *final(self) == (Primitive { vao, vbo, ebo, ..*old(self) }),
    {
        self.vao = vao;
        self.vbo = vbo;
        self.ebo = ebo;
    }

    /// The commands that draw this primitive: bind its shader, set the
    /// model-view-projection uniform from the owning transform, bind the
    /// vertex array, then an indexed draw if an index buffer exists and a
    /// plain draw over all vertices otherwise.
    pub fn shader_config(&self, proj: Mat4, view_matrix: Mat4, transform: &Transform) -> (r: Vec<
        RenderCommand,
    >)
        ensures
            r@ == spec_primitive_commands(*self, proj, view_matrix, *transform),
    {
        let mut r: Vec<RenderCommand> = Vec::new();
        r.push(self.shader.use_program());
        r.push(
            self.shader.set_mvp(
                MvpParts { projection: proj, view_matrix, model: *transform },
            ),
        );
        r.push(RenderCommand::BindVertexArray { vao: self.vao });
        if self.indexed {
            r.push(RenderCommand::DrawElements { count: self.num_indices });
        } else {
            r.push(RenderCommand::DrawArrays { first: 0, count: self.num_vertices });
        }
        proof {
            assert(r@ =~= spec_primitive_commands(*self, proj, view_matrix, *transform));
        }
        r
    }
}

} // verus!
