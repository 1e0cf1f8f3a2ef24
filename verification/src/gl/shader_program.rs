//! Program objects.

use crate::gl::context;
use crate::gl::shader::Shader;
use gl46::GlFns;
use vstd::prelude::*;

verus! {

/// What to ask a program object for to learn whether it linked.
pub const LINK_STATUS: u32 = 0x8B82;

/// The name of a program object.
#[derive(Debug)]
pub struct ShaderProgram {
    id: u32,
}

impl View for ShaderProgram {
    type V = u32;

    closed spec fn view(&self) -> u32 {
        self.id
    }
}

impl ShaderProgram {
    /// The name of the program object.
    pub fn id(&self) -> (id: u32)
        ensures
            id == self@,
    {
        self.id
    }

    /// Asks the driver for a new, empty program object.
    pub fn create(gl: &GlFns) -> ShaderProgram {
        ShaderProgram { id: context::create_program(gl) }
    }

    /// Asks the driver to attach the shader object to the program object, and then to delete
    /// the shader object, whose handle is given up. The driver keeps a shader object that is
    /// attached until it is detached.
    pub fn attach_shader(&mut self, gl: &GlFns, shader: Shader)
        ensures
            final(self)@ == old(self)@,
    {
        context::attach_shader(gl, self.id, shader.id());
        shader.delete(gl);
    }

    /// Asks the driver to link the program object. Whether it linked is for the caller to ask
    /// the driver, see [`crate::gl::shader::status_result`].
    pub fn link(&mut self, gl: &GlFns)
        ensures
            final(self)@ == old(self)@,
    {
        context::link_program(gl, self.id);
    }

    /// Asks the driver to make the program object the one that draw calls run.
    pub fn use_program(&self, gl: &GlFns) {
        context::use_program(gl, self.id);
    }

    /// Asks the driver to delete the program object, and gives up the handle.
    pub fn delete(self, gl: &GlFns) {
        context::delete_program(gl, self.id);
    }
}

} // verus!
