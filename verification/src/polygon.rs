//! The procedural polygon drawable: a raw interleaved vertex buffer, a
//! shader, and an optional texture, placed by its own transform.

use vstd::prelude::*;

use crate::commands::MvpParts;
use crate::commands::PrimitiveUpload;
use crate::commands::RenderCommand;
use crate::primitive::spec_attribute_layout;
use crate::primitive::VERTEX_STRIDE;
use crate::scalar::copy_items;
use crate::scalar::Mat4;
use crate::scalar::Scalar;
use crate::scalar::Vec3;
use crate::scalar::Vec4;
use crate::scalar::BITS_ZERO;
use crate::scene::ObjectTypes;
use crate::shader::Shader;
use crate::texture::Texture;
use crate::transform::Position;
use crate::transform::Rotation;
use crate::transform::Scale;
use crate::transform::Transform;

verus! {

/// Bit pattern of 5.0: the default yaw, in degrees, that a freshly made
/// polygon is turned by, as the engine has always presented them.
pub const BITS_FIVE: u32 = 0x40A0_0000;

/// The transform a polygon starts with: at the origin, turned five degrees
/// about the vertical axis, at unit scale.
pub open spec fn spec_polygon_default_transform() -> Transform {
    Transform {
        position: crate::transform::spec_position_origin(),
        rotation: Rotation {
            x: Scalar { bits: BITS_ZERO },
            y: Scalar { bits: BITS_FIVE },
            z: Scalar { bits: BITS_ZERO },
        },
        scale: crate::transform::spec_scale_one(),
    }
}

/// A drawable built from a caller-supplied interleaved vertex buffer, five
/// scalars per vertex.
#[derive(Clone, PartialEq, Debug)]
pub struct Polygon {
    pub transform: Transform,
    pub shader: Shader,
    pub texture: Option<Texture>,
    pub vertices: Vec<Scalar>,
    pub num_vertices: u32,
    pub vao: u32,
    pub vbo: u32,
}

/// The render commands of one polygon: bind its shader, set the
/// model-view-projection uniform, bind its texture if it has one, bind the
/// vertex array, and draw all its vertices as triangles.
pub open spec fn spec_polygon_commands(p: Polygon, proj: Mat4, view_matrix: Mat4) -> Seq<
    RenderCommand,
> {
    let head = seq![
        RenderCommand::UseProgram { program: p.shader.id },
        RenderCommand::SetMvp {
            program: p.shader.id,
            parts: MvpParts { projection: proj, view_matrix, model: p.transform },
        },
    ];
    let tex: Seq<RenderCommand> = match p.texture {
        Option::Some(t) => seq![
            RenderCommand::BindTexture {
                texture: if t.is_texture_activated {
                    t.id
                } else {
                    0
                },
            },
        ],
        Option::None => Seq::empty(),
    };
    head + tex + seq![
        RenderCommand::BindVertexArray { vao: p.vao },
        RenderCommand::DrawArrays { first: 0, count: p.num_vertices },
    ]
}

impl Polygon {
    /// A polygon over the given vertex buffer, shader and optional
    /// texture, at the default transform, together with the one-time
    /// upload of its buffer. The vertex count is the number of whole
    /// five-scalar vertices in the buffer.
    pub fn new(vertices: Vec<Scalar>, shader: Shader, texture: Option<Texture>) -> (r: (
        Polygon,
        PrimitiveUpload,
    ))
        requires
            vertices@.len() <= u32::MAX,
        ensures
            r.0.transform == spec_polygon_default_transform(),
            r.0.shader == shader,
            r.0.texture == texture,
            r.0.vertices@ == vertices@,
            r.0.num_vertices == vertices@.len() / 5,
            r.0.vao == 0 && r.0.vbo == 0,
            r.1.vertex_data@ == vertices@,
            r.1.indices is None,
            r.1.attributes@ == spec_attribute_layout(),
    {
        let num_vertices = (vertices.len() / 5) as u32;
        let upload_data = copy_items(&vertices);
        let transform = Transform {
            position: Position::new(),
            rotation: Rotation::new_with_default(
                Scalar::zero(),
                Scalar::new(BITS_FIVE),
                Scalar::zero(),
            ),
            scale: Scale::new(),
        };
        let mut attributes: Vec<crate::commands::AttributePointer> = Vec::new();
        attributes.push(
            crate::commands::AttributePointer {
                location: 0,
                components: 3,
                offset: 0,
                stride: VERTEX_STRIDE,
            },
        );
        attributes.push(
            crate::commands::AttributePointer {
                location: 1,
                components: 2,
                offset: 3,
                stride: VERTEX_STRIDE,
            },
        );
        proof {
            assert(attributes@ =~= spec_attribute_layout());
        }
        let polygon = Polygon {
            transform,
            shader,
            texture,
            vertices,
            num_vertices,
            vao: 0,
            vbo: 0,
        };
        let upload = PrimitiveUpload {
            vertex_data: upload_data,
            indices: Option::None,
            attributes,
        };
        (polygon, upload)
    }

    /// A copy of the vertex buffer.
    pub fn get_vertices(&self) -> (r: Vec<Scalar>)
        ensures
            r@ == self.vertices@,
    {
        copy_items(&self.vertices)
    }

    /// Records the handles that the shell allocated when it executed the
    /// upload.
    pub fn attach(&mut self, vao: u32, vbo: u32)
        ensures
            *final(self) == (Polygon { vao, vbo, ..*old(self) }),
    {
        self.vao = vao;
        self.vbo = vbo;
    }

    /// Rescales the polygon; everything else is untouched.
    pub fn set_scale(&mut self, scale: Scalar)
        ensures
            *final(self) == (Polygon {
                transform: Transform { scale: Scale { scale }, ..old(self).transform },
                ..*old(self)
            }),
    {
        self.transform.scale.set(scale);
    }

    /// The commands that tint this polygon: bind its shader, then set the
    /// named colour uniform with full alpha.
    pub fn set_color(&self, var_name: &str, rgb: Vec3) -> (r: Vec<RenderCommand>)
        ensures
            r@.len() == 2,
            r@[0] == (RenderCommand::UseProgram { program: self.shader.id }),
            r@[1] matches RenderCommand::SetVec4 { program, name, value } && program
                == self.shader.id && name@ == var_name@ && value == (Vec4 {
                x: rgb.x,
                y: rgb.y,
                z: rgb.z,
                w: Scalar { bits: crate::scalar::BITS_ONE },
            }),
    {
        let mut r: Vec<RenderCommand> = Vec::new();
        r.push(self.shader.use_program());
        r.push(
            self.shader.set_color(
                var_name,
                Vec4 { x: rgb.x, y: rgb.y, z: rgb.z, w: Scalar::one() },
            ),
        );
        r
    }

    /// Moves the polygon; everything else is untouched.
    pub fn set_position(&mut self, x: Scalar, y: Scalar, z: Scalar)
        ensures
            *final(self) == (Polygon {
                transform: Transform {
                    position: Position { x, y, z },
                    ..old(self).transform
                },
                ..*old(self)
            }),
    {
        self.transform.position.set(x, y, z);
    }

    /// This drawable's kind.
    pub fn get_type(&self) -> (r: ObjectTypes)
        ensures
            r == ObjectTypes::POLYGON,
    {
        ObjectTypes::POLYGON
    }

    /// The render commands of this polygon.
    pub fn render(&self, proj: Mat4, view_matrix: Mat4) -> (r: Vec<RenderCommand>)
        ensures
            r@ == spec_polygon_commands(*self, proj, view_matrix),
    {
        let mut r: Vec<RenderCommand> = Vec::new();
        r.push(self.shader.use_program());
        r.push(
            self.shader.set_mvp(
                MvpParts { projection: proj, view_matrix, model: self.transform },
            ),
        );
        match &self.texture {
            Option::Some(t) => {
                r.push(t.render());
            },
            Option::None => {},
        }
        r.push(RenderCommand::BindVertexArray { vao: self.vao });
        r.push(RenderCommand::DrawArrays { first: 0, count: self.num_vertices });
        proof {
            assert(r@ =~= spec_polygon_commands(*self, proj, view_matrix));
        }
        r
    }
}

} // verus!
