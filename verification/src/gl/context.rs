//! The calls into the OpenGL function table that take and return plain numbers.
//!
//! The function table is loaded by the application, from a window with a current OpenGL
//! context. What the driver does on a call is not modelled: no contract here says anything of
//! the number a call returns, nor of the state it leaves the driver in.

use vstd::prelude::*;

verus! {

/// `gl46::GlFns`, the table of the driver's functions. Nothing is known of what it holds.
#[verifier::external_type_specification]
#[verifier::external_body]
pub struct ExGlFns(gl46::GlFns);

/// Calls `GlFns::CreateShader` with the number of a shader stage. The driver answers with
/// the name of a new shader object, or with 0 where it fails; nothing is claimed of the answer.
#[verifier::external_body]
pub(crate) fn create_shader(gl: &gl46::GlFns, shader_type: u32) -> u32 {
    gl.CreateShader(gl46::GLenum(shader_type))
}

/// Calls `GlFns::CompileShader` on the name of a shader object.
#[verifier::external_body]
pub(crate) fn compile_shader(gl: &gl46::GlFns, shader: u32) {
    gl.CompileShader(shader)
}

/// Calls `GlFns::DeleteShader` on the name of a shader object.
#[verifier::external_body]
pub(crate) fn delete_shader(gl: &gl46::GlFns, shader: u32) {
    gl.DeleteShader(shader)
}

/// Calls `GlFns::CreateProgram`. The driver answers with the name of a new program object,
/// or with 0 where it fails; nothing is claimed of the answer.
#[verifier::external_body]
pub(crate) fn create_program(gl: &gl46::GlFns) -> u32 {
    gl.CreateProgram()
}

/// Calls `GlFns::AttachShader` on the names of a program object and of a shader object.
#[verifier::external_body]
pub(crate) fn attach_shader(gl: &gl46::GlFns, program: u32, shader: u32) {
    gl.AttachShader(program, shader)
}

/// Calls `GlFns::LinkProgram` on the name of a program object.
#[verifier::external_body]
pub(crate) fn link_program(gl: &gl46::GlFns, program: u32) {
    gl.LinkProgram(program)
}

/// Calls `GlFns::UseProgram` on the name of a program object.
#[verifier::external_body]
pub(crate) fn use_program(gl: &gl46::GlFns, program: u32) {
    gl.UseProgram(program)
}

/// Calls `GlFns::DeleteProgram` on the name of a program object.
#[verifier::external_body]
pub(crate) fn delete_program(gl: &gl46::GlFns, program: u32) {
    gl.DeleteProgram(program)
}

/// Calls `GlFns::BindVertexArray` on the name of a vertex array object.
#[verifier::external_body]
pub(crate) fn bind_vertex_array(gl: &gl46::GlFns, array: u32) {
    gl.BindVertexArray(array)
}

} // verus!
