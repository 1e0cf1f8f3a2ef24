//! Typed names for OpenGL objects and modes, and the calls on them that need no raw pointers.

pub mod buffer;
pub mod context;
pub mod debug;
pub mod shader;
pub mod shader_program;
pub mod state;
pub mod texture;
pub mod vertex_array;
