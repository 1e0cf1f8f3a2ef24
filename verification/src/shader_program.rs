//! A shader program that is ready to draw with.

use crate::gl;
use crate::shader_program::shader::Shader;
use gl46::GlFns;
use vstd::prelude::*;

pub mod shader;

verus! {

/// A step in building a shader program. The steps are taken in this order, and a step that
/// fails is the last one taken.
#[derive(Clone, Copy, Debug, PartialEq, Eq, Structural)]
pub enum BuildStep {
    /// The vertex shader is made from its code.
    VertexShader,
    /// The fragment shader is made from its code.
    FragmentShader,
    /// The program is made of both shaders and linked.
    Link,
}

impl BuildStep {
    /// The step that comes after this one, if there is one.
    pub open spec fn following(self) -> Option<BuildStep> {
        match self {
            BuildStep::VertexShader => Some(BuildStep::FragmentShader),
            BuildStep::FragmentShader => Some(BuildStep::Link),
            BuildStep::Link => None,
        }
    }

    /// What a step comes to, given the status that the driver reports for it and the info
    /// log: a status of 0 is a failure that ends the build with the log as its error; after
    /// any other status the following step is due, or the build is done.
    pub open spec fn outcome(self, status: i32, log: Seq<char>) -> Result<
        Option<BuildStep>,
        Seq<char>,
    > {
        if status == 0 {
            Err(log)
        } else {
            Ok(self.following())
        }
    }

    /// The step that a build begins with.
    pub fn first() -> (step: BuildStep)
        ensures
            step == BuildStep::VertexShader,
    {
        BuildStep::VertexShader
    }

    /// What to do once this step is taken, given the status that the driver reports for it
    /// and the info log: to fail with the log where the status is 0, and else to take the
    /// following step, or to finish where there is none.
    pub fn next(self, status: i32, log: String) -> (next: Result<Option<BuildStep>, String>)
        ensures
            status == 0 ==> next == Err::<Option<BuildStep>, String>(log),
            status != 0 ==> next == Ok::<Option<BuildStep>, String>(self.following()),
            match next {
                Ok(step) => self.outcome(status, log@) == Ok::<Option<BuildStep>, Seq<char>>(step),
                Err(error) => self.outcome(status, log@) == Err::<Option<BuildStep>, Seq<char>>(
                    error@,
                ),
            },
    {
        if status == 0 {
            Err(log)
        } else {
            Ok(
                match self {
                    BuildStep::VertexShader => Some(BuildStep::FragmentShader),
                    BuildStep::FragmentShader => Some(BuildStep::Link),
                    BuildStep::Link => None,
                },
            )
        }
    }
}

/// What building a program comes to, given what the driver reports for each step, as status
/// and info log: the log of the first step that fails, in the order vertex shader, fragment
/// shader, link; or success where none fails.
pub open spec fn build_result(
    vertex: (i32, Seq<char>),
    fragment: (i32, Seq<char>),
    link: (i32, Seq<char>),
) -> Result<(), Seq<char>> {
    if vertex.0 == 0 {
        Err(vertex.1)
    } else if fragment.0 == 0 {
        Err(fragment.1)
    } else if link.0 == 0 {
        Err(link.1)
    } else {
        Ok(())
    }
}

/// How many steps are taken when a program is built: no step is taken after one that fails.
pub open spec fn steps_taken(vertex: i32, fragment: i32, link: i32) -> nat {
    if vertex == 0 {
        1
    } else if fragment == 0 {
        2
    } else {
        3
    }
}

/// What taking the steps from `step` on comes to, each step as [`BuildStep::outcome`] says,
/// where `reports` holds what the driver reports for `step` and for the steps after it, as
/// status and info log: the result, and how many steps were taken.
pub open spec fn build_from(step: BuildStep, reports: Seq<(i32, Seq<char>)>) -> (
    Result<(), Seq<char>>,
    nat,
)
    decreases reports.len(),
{
    if reports.len() == 0 {
        (Ok(()), 0)
    } else {
        match step.outcome(reports[0].0, reports[0].1) {
            Err(log) => (Err(log), 1),
            Ok(None) => (Ok(()), 1),
            Ok(Some(following)) => {
                let rest = build_from(following, reports.skip(1));
                (rest.0, rest.1 + 1)
            },
        }
    }
}

/// A build that takes its steps one after the other fails with the log of the first step
/// that fails, in the order vertex shader, fragment shader, link, and takes no step after
/// it; where no step fails it takes all three and succeeds.
pub proof fn lemma_build_ends_at_the_first_failure(
    vertex: (i32, Seq<char>),
    fragment: (i32, Seq<char>),
    link: (i32, Seq<char>),
)
    ensures
        build_from(BuildStep::VertexShader, seq![vertex, fragment, link]) == (
            build_result(vertex, fragment, link),
            steps_taken(vertex.0, fragment.0, link.0),
        ),
{
    let reports = seq![vertex, fragment, link];
    reveal_with_fuel(build_from, 4);
    assert(reports.skip(1) =~= seq![fragment, link]);
    assert(reports.skip(1).skip(1) =~= seq![link]);
    assert(reports.skip(1).skip(1).skip(1) =~= Seq::<(i32, Seq<char>)>::empty());
}

/// A program object made of a vertex shader and a fragment shader.
#[derive(Debug)]
pub struct ShaderProgram {
    program: gl::shader_program::ShaderProgram,
}

impl View for ShaderProgram {
    type V = u32;

    closed spec fn view(&self) -> u32 {
        self.program@
    }
}

impl ShaderProgram {
    /// Asks the driver for a new program object, attaches the vertex shader and then the
    /// fragment shader to it, and asks the driver to link it. This is the last step of a
    /// build, see [`BuildStep::Link`]; whether it linked is for the caller to ask the driver.
    pub fn new(gl: &GlFns, vertex: Shader, fragment: Shader) -> ShaderProgram {
        let mut program = gl::shader_program::ShaderProgram::create(gl);
        program.attach_shader(gl, gl::shader::Shader::from(vertex));
        program.attach_shader(gl, gl::shader::Shader::from(fragment));
        program.link(gl);
        ShaderProgram { program }
    }

    /// The program as it is if it linked, given the status that the driver reports for
    /// linking it and the info log. A status of 0 is a failure: the program object is
    /// deleted and the log is returned as the error.
    pub fn checked(self, gl: &GlFns, status: i32, log: String) -> (result: Result<
        ShaderProgram,
        String,
    >)
        ensures
            status == 0 ==> result == Err::<ShaderProgram, String>(log),
            status != 0 ==> result == Ok::<ShaderProgram, String>(self),
    {
        match gl::shader::status_result(status, log) {
            Ok(()) => Ok(self),
            Err(log) => {
                self.program.delete(gl);
                Err(log)
            },
        }
    }

    /// The name of the program object.
    pub fn id(&self) -> (id: u32)
        ensures
            id == self@,
    {
        self.program.id()
    }

    /// Asks the driver to make the program the one that draw calls run.
    pub fn use_program(&self, gl: &GlFns) {
        self.program.use_program(gl);
    }

    /// Asks the driver to delete the program object, and gives up the program.
    pub fn delete(self, gl: &GlFns) {
        self.program.delete(gl);
    }
}

} // verus!
