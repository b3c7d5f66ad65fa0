//! The point-light drawable: a fixed cube of thirty-six vertices, a shader
//! that supports colour tinting, and no texture. The cube geometry is set
//! at construction and never reconfigured.

use vstd::prelude::*;

use crate::commands::MvpParts;
use crate::commands::PrimitiveUpload;
use crate::commands::RenderCommand;
use crate::primitive::spec_attribute_layout;
use crate::primitive::VERTEX_STRIDE;
use crate::scalar::copy_items;
use crate::scalar::Mat4;
use crate::scalar::Scalar;
use crate::scalar::Vec3;
use crate::scalar::Vec4;
use crate::scalar::BITS_ONE;
use crate::scalar::BITS_ZERO;
use crate::scene::ObjectTypes;
use crate::shader::Shader;
use crate::transform::Position;
use crate::transform::Rotation;
use crate::transform::Scale;
use crate::transform::Transform;

verus! {

/// Bit pattern of -5.0: the default yaw, in degrees, of a fresh light.
pub const BITS_NEG_FIVE: u32 = 0xC0A0_0000;

/// Bit pattern of 0.5: the cube's half-extent.
pub const BITS_HALF: u32 = 0x3F00_0000;

/// Bit pattern of -0.5.
pub const BITS_NEG_HALF: u32 = 0xBF00_0000;

/// The transform a light starts with: at the origin, turned minus five
/// degrees about the vertical axis, at unit scale.
pub open spec fn spec_light_default_transform() -> Transform {
    Transform {
        position: crate::transform::spec_position_origin(),
        rotation: Rotation {
            x: Scalar { bits: BITS_ZERO },
            y: Scalar { bits: BITS_NEG_FIVE },
            z: Scalar { bits: BITS_ZERO },
        },
        scale: crate::transform::spec_scale_one(),
    }
}

/// The five scalars of one cube vertex, as a specification value.
pub open spec fn spec_cube_vertex(x: u32, y: u32, z: u32, u: u32, v: u32) -> Seq<Scalar> {
    seq![
        Scalar { bits: x },
        Scalar { bits: y },
        Scalar { bits: z },
        Scalar { bits: u },
        Scalar { bits: v },
    ]
}

/// The engine's fixed cube, as a specification value: six faces of two
/// triangles each, centred at the origin with half-extent one half, one
/// full texture tile per face.
pub open spec fn spec_cube_vertices() -> Seq<Scalar> {
    let h = BITS_HALF;
    let n = BITS_NEG_HALF;
    let o = BITS_ONE;
    let z = BITS_ZERO;
    spec_cube_vertex(n, n, n, z, z) + spec_cube_vertex(h, n, n, o, z) + spec_cube_vertex(
        h,
        h,
        n,
        o,
        o,
    ) + spec_cube_vertex(h, h, n, o, o) + spec_cube_vertex(n, h, n, z, o) + spec_cube_vertex(
        n,
        n,
        n,
        z,
        z,
    ) + spec_cube_vertex(n, n, h, z, z) + spec_cube_vertex(h, n, h, o, z) + spec_cube_vertex(
        h,
        h,
        h,
        o,
        o,
    ) + spec_cube_vertex(h, h, h, o, o) + spec_cube_vertex(n, h, h, z, o) + spec_cube_vertex(
        n,
        n,
        h,
        z,
        z,
    ) + spec_cube_vertex(n, h, h, o, z) + spec_cube_vertex(n, h, n, o, o) + spec_cube_vertex(
        n,
        n,
        n,
        z,
        o,
    ) + spec_cube_vertex(n, n, n, z, o) + spec_cube_vertex(n, n, h, z, z) + spec_cube_vertex(
        n,
        h,
        h,
        o,
        z,
    ) + spec_cube_vertex(h, h, h, o, z) + spec_cube_vertex(h, h, n, o, o) + spec_cube_vertex(
        h,
        n,
        n,
        z,
        o,
    ) + spec_cube_vertex(h, n, n, z, o) + spec_cube_vertex(h, n, h, z, z) + spec_cube_vertex(
        h,
        h,
        h,
        o,
        z,
    ) + spec_cube_vertex(n, n, n, z, o) + spec_cube_vertex(h, n, n, o, o) + spec_cube_vertex(
        h,
        n,
        h,
        o,
        z,
    ) + spec_cube_vertex(h, n, h, o, z) + spec_cube_vertex(n, n, h, z, z) + spec_cube_vertex(
        n,
        n,
        n,
        z,
        o,
    ) + spec_cube_vertex(n, h, n, z, o) + spec_cube_vertex(h, h, n, o, o) + spec_cube_vertex(
        h,
        h,
        h,
        o,
        z,
    ) + spec_cube_vertex(h, h, h, o, z) + spec_cube_vertex(n, h, h, z, z) + spec_cube_vertex(
        n,
        h,
        n,
        z,
        o,
    )
}

/// Appends one interleaved vertex: three position scalars and two texture
/// coordinate scalars, given as bit patterns.
fn push_vertex(buf: &mut Vec<Scalar>, x: u32, y: u32, z: u32, u: u32, v: u32)
    ensures
        final(buf)@ == old(buf)@ + seq![
            Scalar { bits: x },
            Scalar { bits: y },
            Scalar { bits: z },
            Scalar { bits: u },
            Scalar { bits: v },
        ],
{
    let ghost before = buf@;
    buf.push(Scalar { bits: x });
    buf.push(Scalar { bits: y });
    buf.push(Scalar { bits: z });
    buf.push(Scalar { bits: u });
    buf.push(Scalar { bits: v });
    proof {
        assert(buf@ =~= before + seq![
            Scalar { bits: x },
            Scalar { bits: y },
            Scalar { bits: z },
            Scalar { bits: u },
            Scalar { bits: v },
        ]);
    }
}

/// The engine's fixed cube: thirty-six interleaved vertices, six faces of
/// two triangles each, centred at the origin with half-extent one half,
/// with one full texture tile per face.
pub fn cube_vertices() -> (r: Vec<Scalar>)
    ensures
        r@ == spec_cube_vertices(),
        r@.len() == 180,
{
    let h = BITS_HALF;
    let n = BITS_NEG_HALF;
    let o = BITS_ONE;
    let z = BITS_ZERO;
    let mut buf: Vec<Scalar> = Vec::new();
    // Face at minimum depth.
    push_vertex(&mut buf, n, n, n, z, z);
    push_vertex(&mut buf, h, n, n, o, z);
    push_vertex(&mut buf, h, h, n, o, o);
    push_vertex(&mut buf, h, h, n, o, o);
    push_vertex(&mut buf, n, h, n, z, o);
    push_vertex(&mut buf, n, n, n, z, z);
    // Face at maximum depth.
    push_vertex(&mut buf, n, n, h, z, z);
    push_vertex(&mut buf, h, n, h, o, z);
    push_vertex(&mut buf, h, h, h, o, o);
    push_vertex(&mut buf, h, h, h, o, o);
    push_vertex(&mut buf, n, h, h, z, o);
    push_vertex(&mut buf, n, n, h, z, z);
    // Left face.
    push_vertex(&mut buf, n, h, h, o, z);
    push_vertex(&mut buf, n, h, n, o, o);
    push_vertex(&mut buf, n, n, n, z, o);
    push_vertex(&mut buf, n, n, n, z, o);
    push_vertex(&mut buf, n, n, h, z, z);
    push_vertex(&mut buf, n, h, h, o, z);
    // Right face.
    push_vertex(&mut buf, h, h, h, o, z);
    push_vertex(&mut buf, h, h, n, o, o);
    push_vertex(&mut buf, h, n, n, z, o);
    push_vertex(&mut buf, h, n, n, z, o);
    push_vertex(&mut buf, h, n, h, z, z);
    push_vertex(&mut buf, h, h, h, o, z);
    // Bottom face.
    push_vertex(&mut buf, n, n, n, z, o);
    push_vertex(&mut buf, h, n, n, o, o);
    push_vertex(&mut buf, h, n, h, o, z);
    push_vertex(&mut buf, h, n, h, o, z);
    push_vertex(&mut buf, n, n, h, z, z);
    push_vertex(&mut buf, n, n, n, z, o);
    // Top face.
    push_vertex(&mut buf, n, h, n, z, o);
    push_vertex(&mut buf, h, h, n, o, o);
    push_vertex(&mut buf, h, h, h, o, z);
    push_vertex(&mut buf, h, h, h, o, z);
    push_vertex(&mut buf, n, h, h, z, z);
    push_vertex(&mut buf, n, h, n, z, o);
    proof {
        assert(buf@ =~= spec_cube_vertices());
    }
    buf
}

/// A point light, drawn as a small cube.
#[derive(Clone, PartialEq, Debug)]
pub struct Light {
    pub transform: Transform,
    pub shader: Shader,
    pub vertices: Vec<Scalar>,
    pub vao: u32,
    pub vbo: u32,
}

/// The render commands of one light: bind its shader, set the
/// model-view-projection uniform, bind the vertex array, and draw the
/// thirty-six cube vertices.
pub open spec fn spec_light_commands(l: Light, proj: Mat4, view_matrix: Mat4) -> Seq<
    RenderCommand,
> {
    seq![
        RenderCommand::UseProgram { program: l.shader.id },
        RenderCommand::SetMvp {
            program: l.shader.id,
            parts: MvpParts { projection: proj, view_matrix, model: l.transform },
        },
        RenderCommand::BindVertexArray { vao: l.vao },
        RenderCommand::DrawArrays { first: 0, count: 36 },
    ]
}

impl Light {
    /// A light over the given shader, at the default transform, with the
    /// fixed cube as its geometry, together with the one-time upload of
    /// its buffer.
    pub fn new(shader: Shader) -> (r: (Light, PrimitiveUpload))
        ensures
            r.0.transform == spec_light_default_transform(),
            r.0.shader == shader,
            r.0.vertices@ == spec_cube_vertices(),
            r.0.vertices@.len() == 180,
            r.0.vao == 0 && r.0.vbo == 0,
            r.1.vertex_data@ == r.0.vertices@,
            r.1.indices is None,
            r.1.attributes@ == spec_attribute_layout(),
    {
        let vertices = cube_vertices();
        let upload_data = copy_items(&vertices);
        let transform = Transform {
            position: Position::new(),
            rotation: Rotation::new_with_default(
                Scalar::zero(),
                Scalar::new(BITS_NEG_FIVE),
                Scalar::zero(),
            ),
            scale: Scale::new(),
        };
        let mut attributes: Vec<crate::commands::AttributePointer> = Vec::new();
        attributes.push(
            crate::commands::AttributePointer {
                location: 0,
                components: 3,
                offset: 0,
                stride: VERTEX_STRIDE,
            },
        );
        attributes.push(
            crate::commands::AttributePointer {
                location: 1,
                components: 2,
                offset: 3,
                stride: VERTEX_STRIDE,
            },
        );
        proof {
            assert(attributes@ =~= spec_attribute_layout());
        }
        let light = Light { transform, shader, vertices, vao: 0, vbo: 0 };
        let upload = PrimitiveUpload {
            vertex_data: upload_data,
            indices: Option::None,
            attributes,
        };
        (light, upload)
    }

    /// A copy of the cube's vertex buffer.
    pub fn get_vertices(&self) -> (r: Vec<Scalar>)
        ensures
            r@ == self.vertices@,
    {
        copy_items(&self.vertices)
    }

    /// Records the handles that the shell allocated when it executed the
    /// upload.
    pub fn attach(&mut self, vao: u32, vbo: u32)
        ensures
            *final(self) == (Light { vao, vbo, ..*old(self) }),
    {
        self.vao = vao;
        self.vbo = vbo;
    }

    /// Rescales the light; everything else is untouched.
    pub fn set_scale(&mut self, scale: Scalar)
        ensures
            *final(self) == (Light {
                transform: Transform { scale: Scale { scale }, ..old(self).transform },
                ..*old(self)
            }),
    {
        self.transform.scale.set(scale);
    }

    /// The commands that tint this light: bind its shader, then set the
    /// named colour uniform with full alpha.
    pub fn set_color(&self, var_name: &str, rgb: Vec3) -> (r: Vec<RenderCommand>)
        ensures
            r@.len() == 2,
            r@[0] == (RenderCommand::UseProgram { program: self.shader.id }),
            r@[1] matches RenderCommand::SetVec4 { program, name, value } && program
                == self.shader.id && name@ == var_name@ && value == (Vec4 {
                x: rgb.x,
                y: rgb.y,
                z: rgb.z,
                w: Scalar { bits: BITS_ONE },
            }),
    {
        let mut r: Vec<RenderCommand> = Vec::new();
        r.push(self.shader.use_program());
        r.push(
            self.shader.set_color(
                var_name,
                Vec4 { x: rgb.x, y: rgb.y, z: rgb.z, w: Scalar::one() },
            ),
        );
        r
    }

    /// Moves the light; everything else is untouched.
    pub fn set_position(&mut self, x: Scalar, y: Scalar, z: Scalar)
        ensures
            *final(self) == (Light {
                transform: Transform {
                    position: Position { x, y, z },
                    ..old(self).transform
                },
                ..*old(self)
            }),
    {
        self.transform.position.set(x, y, z);
    }

    /// This drawable's kind.
    pub fn get_type(&self) -> (r: ObjectTypes)
        ensures
            r == ObjectTypes::LIGHT,
    {
        ObjectTypes::LIGHT
    }

    /// The render commands of this light.
    pub fn render(&self, proj: Mat4, view_matrix: Mat4) -> (r: Vec<RenderCommand>)
        ensures
            r@ == spec_light_commands(*self, proj, view_matrix),
    {
        let mut r: Vec<RenderCommand> = Vec::new();
        r.push(self.shader.use_program());
        r.push(
            self.shader.set_mvp(
                MvpParts { projection: proj, view_matrix, model: self.transform },
            ),
        );
        r.push(RenderCommand::BindVertexArray { vao: self.vao });
        r.push(RenderCommand::DrawArrays { first: 0, count: 36 });
        proof {
            assert(r@ =~= spec_light_commands(*self, proj, view_matrix));
        }
        r
    }
}

} // verus!
