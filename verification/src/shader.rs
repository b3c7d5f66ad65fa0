//! Shader programs and their uniform-setting commands.
//!
//! Compiling and linking GLSL text is graphics-API work that the shell
//! performs; it reports back one [`CompileReport`] per stage and the raw
//! handle of the linked program. The library decides the outcome under the
//! engine's fail-loose policy: a stage that failed to compile is logged and
//! the engine carries on with the null program instead of aborting, so that
//! shader development can iterate against a running scene.

use vstd::prelude::*;

use crate::commands::MvpParts;
use crate::commands::RenderCommand;
use crate::scalar::Mat4;
use crate::scalar::Scalar;
use crate::scalar::Vec4;

verus! {

/// What the shell reports after compiling one shader stage: the raw handle,
/// and the compiler's message if compilation failed.
#[derive(Clone, PartialEq, Debug)]
pub struct CompileReport {
    pub handle: u32,
    pub log: Option<String>,
}

/// The diagnostics that a pair of stage reports produces, in stage order.
pub open spec fn spec_build_logs(vertex: Option<String>, fragment: Option<String>) -> Seq<
    String,
> {
    match (vertex, fragment) {
        (Option::None, Option::None) => Seq::empty(),
        (Option::Some(v), Option::None) => seq![v],
        (Option::None, Option::Some(f)) => seq![f],
        (Option::Some(v), Option::Some(f)) => seq![v, f],
    }
}

/// A linked shader program, known by its raw handle. Handle zero is the
/// null program: using it renders nothing, which is the engine's deliberate
/// degraded mode after a failed build.
#[derive(Clone, Copy, PartialEq, Eq, Structural, Debug)]
pub struct Shader {
    pub id: u32,
}

impl Shader {
    /// A shader around an already linked program handle.
    pub fn new(id: u32) -> (r: Shader)
        ensures
            r.id == id,
    {
        Shader { id }
    }

    /// Settles a build under the fail-loose policy: if both stages
    /// compiled, the program is the linked handle; if either failed, the
    /// program is the null program and the compilers' messages are handed
    /// back for the diagnostic stream, vertex stage first.
    pub fn from_build(vertex: CompileReport, fragment: CompileReport, linked: u32) -> (r: (
        Shader,
        Vec<String>,
    ))
        ensures
            vertex.log is None && fragment.log is None ==> r.0.id == linked,
            !(vertex.log is None && fragment.log is None) ==> r.0.id == 0,
            r.1@ == spec_build_logs(vertex.log, fragment.log),
    {
        let ghost vlog = vertex.log;
        let ghost flog = fragment.log;
        let mut diagnostics: Vec<String> = Vec::new();
        let mut failed = false;
        match vertex.log {
            Option::Some(message) => {
                diagnostics.push(message);
                failed = true;
            },
            Option::None => {},
        }
        match fragment.log {
            Option::Some(message) => {
                diagnostics.push(message);
                failed = true;
            },
            Option::None => {},
        }
        let id: u32 = if failed {
            0
        } else {
            linked
        };
        proof {
            assert(diagnostics@ =~= spec_build_logs(vlog, flog));
        }
        (Shader { id }, diagnostics)
    }

    /// The command that makes this program current.
    pub fn use_program(&self) -> (r: RenderCommand)
        ensures
            r == (RenderCommand::UseProgram { program: self.id }),
    {
        RenderCommand::UseProgram { program: self.id }
    }

    /// The command that sets a boolean uniform by name.
    pub fn set_bool(&self, var_name: &str, value: bool) -> (r: RenderCommand)
        ensures
            r matches RenderCommand::SetBool { program, name, value: v } && program == self.id
                && name@ == var_name@ && v == value,
    {
        RenderCommand::SetBool { program: self.id, name: String::from_str(var_name), value }
    }

    /// The command that sets an integer uniform by name.
    pub fn set_int(&self, var_name: &str, value: i32) -> (r: RenderCommand)
        ensures
            r matches RenderCommand::SetInt { program, name, value: v } && program == self.id
                && name@ == var_name@ && v == value,
    {
        RenderCommand::SetInt { program: self.id, name: String::from_str(var_name), value }
    }

    /// The command that sets a scalar uniform by name.
    pub fn set_float(&self, var_name: &str, value: Scalar) -> (r: RenderCommand)
        ensures
            r matches RenderCommand::SetFloat { program, name, value: v } && program == self.id
                && name@ == var_name@ && v == value,
    {
        RenderCommand::SetFloat { program: self.id, name: String::from_str(var_name), value }
    }

    /// The command that sets a four-component colour uniform by name.
    pub fn set_color(&self, var_name: &str, rgba: Vec4) -> (r: RenderCommand)
        ensures
            r matches RenderCommand::SetVec4 { program, name, value } && program == self.id
                && name@ == var_name@ && value == rgba,
    {
        RenderCommand::SetVec4 { program: self.id, name: String::from_str(var_name), value: rgba }
    }

    /// The command that sets a full matrix uniform by name.
    pub fn set_matrix4(&self, var_name: &str, matrix: Mat4) -> (r: RenderCommand)
        ensures
            r matches RenderCommand::SetMat4 { program, name, matrix: m } && program == self.id
                && name@ == var_name@ && m == matrix,
    {
        RenderCommand::SetMat4 { program: self.id, name: String::from_str(var_name), matrix }
    }

    /// The command that sets the uniform named `mvp` to the composed
    /// product of the given parts.
    pub fn set_mvp(&self, parts: MvpParts) -> (r: RenderCommand)
        ensures
            r == (RenderCommand::SetMvp { program: self.id, parts }),
    {
        RenderCommand::SetMvp { program: self.id, parts }
    }

    /// The command that sets a matrix uniform named `transform`: sugar, as
    /// `set_mvp` is.
    pub fn set_transform(&self, matrix: Mat4) -> (r: RenderCommand)
        ensures
            r matches RenderCommand::SetMat4 { program, name, matrix: m } && program == self.id
                && name@ == "transform"@ && m == matrix,
    {
        self.set_matrix4("transform", matrix)
    }
}

} // verus!
