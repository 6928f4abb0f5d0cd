//! The two shaders of a graphics pipeline.
use crate::driver::DriverCall;
use crate::shader::Shader;
use vstd::prelude::*;

verus! {

/// A vertex shader and a fragment shader.
#[derive(Debug, PartialEq, Eq)]
pub struct GraphicsProgram {
    pub vertex_shader: Shader,
    pub fragment_shader: Shader,
}

impl GraphicsProgram {
    /// The program of the two shaders.
    pub fn new(vertex_shader: Shader, fragment_shader: Shader) -> (program: GraphicsProgram)
        ensures
            program.vertex_shader == vertex_shader,
            program.fragment_shader == fragment_shader,
    {
        Self { vertex_shader, fragment_shader }
    }

    /// Gives the program up: the calls that destroy the vertex shader, then
    /// the fragment shader.
    pub fn clean(&self) -> (calls: Vec<DriverCall>)
        ensures
            calls@ == seq![
                DriverCall::DestroyShaderModule { module: self.vertex_shader.module },
                DriverCall::DestroyShaderModule { module: self.fragment_shader.module },
            ],
    {
        let calls = vec![self.vertex_shader.clean(), self.fragment_shader.clean()];
        calls
    }
}

} // verus!
