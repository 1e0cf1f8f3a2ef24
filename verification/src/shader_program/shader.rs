//! A shader that has compiled.

use crate::gl;
use gl46::GlFns;
use vstd::prelude::*;
use vstd::std_specs::convert::FromSpec;

verus! {

/// The form that the code of a shader comes in.
#[derive(Clone, Copy, Debug, PartialEq, Eq, Structural)]
pub enum ShaderSourceType {
    GLSL,
    SPIRV,
}

/// The code of a shader: GLSL text, or a SPIR-V binary.
#[derive(Clone, Copy, Debug)]
pub enum ShaderCode<'a> {
    GLSL(&'a str),
    SPIRV(&'a [u8]),
}

/// A shader object whose code the driver has accepted.
#[derive(Debug)]
pub struct Shader {
    shader: gl::shader::Shader,
}

impl View for Shader {
    type V = u32;

    closed spec fn view(&self) -> u32 {
        self.shader@
    }
}

impl Shader {
    /// The shader for a shader object, given the status that the driver reports for
    /// compiling or specializing it and the info log. A status of 0 is a failure: the shader
    /// object is deleted and the log is returned as the error.
    pub fn checked(gl: &GlFns, shader: gl::shader::Shader, status: i32, log: String) -> (result:
        Result<Shader, String>)
        ensures
            status == 0 ==> result == Err::<Shader, String>(log),
            status != 0 ==> (result matches Ok(checked) && checked@ == shader@),
    {
        match gl::shader::status_result(status, log) {
            Ok(()) => Ok(Shader { shader }),
            Err(log) => {
                shader.delete(gl);
                Err(log)
            },
        }
    }

    /// The shader object.
    pub fn shader(&self) -> (shader: &gl::shader::Shader)
        ensures
            shader@ == self@,
    {
        &self.shader
    }

    /// The name of the shader object.
    pub fn id(&self) -> (id: u32)
        ensures
            id == self@,
    {
        self.shader.id()
    }

}

impl From<gl::shader::Shader> for Shader {
    /// Takes the shader object as one whose code the driver has accepted.
    fn from(shader: gl::shader::Shader) -> (wrapped: Shader) {
        Shader { shader }
    }
}

impl vstd::std_specs::convert::FromSpecImpl<gl::shader::Shader> for Shader {
    open spec fn obeys_from_spec() -> bool {
        true
    }

    closed spec fn from_spec(shader: gl::shader::Shader) -> Shader {
        Shader { shader }
    }
}

impl From<Shader> for gl::shader::Shader {
    /// Gives the shader object back.
    fn from(shader: Shader) -> (unwrapped: gl::shader::Shader) {
        shader.shader
    }
}

impl vstd::std_specs::convert::FromSpecImpl<Shader> for gl::shader::Shader {
    open spec fn obeys_from_spec() -> bool {
        true
    }

    closed spec fn from_spec(shader: Shader) -> gl::shader::Shader {
        shader.shader
    }
}

/// A shader wraps the shader object it is made from, and gives it back unchanged.
pub proof fn lemma_conversions_keep_the_name(shader: gl::shader::Shader, wrapped: Shader)
    ensures
        Shader::from_spec(shader)@ == shader@,
        gl::shader::Shader::from_spec(wrapped)@ == wrapped@,
{
}

} // verus!
