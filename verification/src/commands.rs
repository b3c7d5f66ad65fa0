//! The graphics-command vocabulary.
//!
//! The graphics API is inherently stateful: binding a program, a texture or
//! a vertex array mutates hidden global state. The library therefore never
//! calls it. Instead every operation that would touch the API is emitted as
//! a value of one of these types, in the order in which the shell must
//! execute it, which keeps each drawable's `render` explicit about what it
//! binds.

use vstd::prelude::*;

use crate::scalar::Mat4;
use crate::scalar::Scalar;
use crate::scalar::Vec4;
use crate::transform::Transform;

verus! {

/// Texture wrap mode on one axis. The engine always mirrors.
#[derive(Clone, Copy, PartialEq, Eq, Structural, Debug)]
pub enum WrapMode {
    MirroredRepeat,
}

/// Texture minification filter. The mipmap-weighted linear filter is this
/// library's documented choice of default.
#[derive(Clone, Copy, PartialEq, Eq, Structural, Debug)]
pub enum MinFilter {
    LinearMipmapLinear,
}

/// How filled polygons are rasterised.
#[derive(Clone, Copy, PartialEq, Eq, Structural, Debug)]
pub enum PolygonModeKind {
    Fill,
    Line,
    Point,
}

/// One vertex attribute of an interleaved buffer. All counts are in
/// scalars, not bytes; the shell multiplies by the scalar width.
#[derive(Clone, Copy, PartialEq, Eq, Structural, Debug)]
pub struct AttributePointer {
    /// Shader input location.
    pub location: u32,
    /// Number of scalar components of the attribute.
    pub components: u32,
    /// Offset of the attribute inside one vertex, in scalars.
    pub offset: u32,
    /// Distance between two vertices, in scalars.
    pub stride: u32,
}

/// Everything the shell needs to allocate and fill the buffers of one
/// primitive: the interleaved vertex data, the optional index data, and the
/// attribute layout.
#[derive(Clone, PartialEq, Debug)]
pub struct PrimitiveUpload {
    pub vertex_data: Vec<Scalar>,
    pub indices: Option<Vec<u32>>,
    pub attributes: Vec<AttributePointer>,
}

/// Everything the shell needs to allocate and fill one texture object:
/// tightly packed RGB8 pixels, the sampling parameters, and the request to
/// generate mipmaps.
#[derive(Clone, PartialEq, Debug)]
pub struct TextureUpload {
    pub width: u32,
    pub height: u32,
    pub pixels: Vec<u8>,
    pub wrap_s: WrapMode,
    pub wrap_t: WrapMode,
    pub min_filter: MinFilter,
    pub generate_mipmaps: bool,
}

/// The three factors of a model-view-projection product, in the order in
/// which they are multiplied: `projection * view * model`, where the model
/// matrix is built from the transform as rotate-then-translate with a
/// trailing uniform scale. The product itself is floating-point work and is
/// left to the executor.
#[derive(Clone, Copy, PartialEq, Eq, Structural, Debug)]
pub struct MvpParts {
    pub projection: Mat4,
    pub view_matrix: Mat4,
    pub model: Transform,
}

/// One step of a render pass, to be executed in order. Commands deliberately
/// name the object they bind: bound state does not survive from one
/// drawable's commands to the next.
#[allow(inconsistent_fields)]
#[derive(Clone, PartialEq, Debug)]
pub enum RenderCommand {
    /// Make the given shader program current.
    UseProgram { program: u32 },
    /// Resolve the uniform named `mvp` in `program` and set it to the
    /// composed product of `parts`. Unknown names are silently ignored by
    /// the graphics API.
    SetMvp { program: u32, parts: MvpParts },
    /// Resolve `name` in `program` and set a boolean uniform.
    SetBool { program: u32, name: String, value: bool },
    /// Resolve `name` in `program` and set an integer uniform.
    SetInt { program: u32, name: String, value: i32 },
    /// Resolve `name` in `program` and set a scalar uniform.
    SetFloat { program: u32, name: String, value: Scalar },
    /// Resolve `name` in `program` and set a four-component uniform.
    SetVec4 { program: u32, name: String, value: Vec4 },
    /// Resolve `name` in `program` and set a full matrix uniform.
    SetMat4 { program: u32, name: String, matrix: Mat4 },
    /// Bind a texture object; object zero means no texture.
    BindTexture { texture: u32 },
    /// Bind a vertex array object.
    BindVertexArray { vao: u32 },
    /// Draw `count` vertices of the bound array as a triangle list.
    DrawArrays { first: u32, count: u32 },
    /// Draw `count` indices of the bound element buffer as a triangle list.
    DrawElements { count: u32 },
}

} // verus!
