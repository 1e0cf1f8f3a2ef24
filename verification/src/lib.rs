//! The verified core of a small OpenGL engine: a window shows a scene of textured models, and
//! a camera flies through it by mouse and keyboard.
//!
//! - [`input`] keeps the snapshot of keys, buttons and pointer that each frame starts from.
//! - [`camera`] keeps the view angles, and [`engine`] turns one frame's input into turns of
//!   the view and moves of the camera.
//! - [`model`], [`texture`] and [`shader_program`] lay out what the driver is handed, and
//!   [`gl`] holds the names and numbers that the driver knows things by.
//! - [`file_system`] and [`archive`] find resources by name.
//!
//! The window, the event queue, the files on disk and every driver call that takes a raw
//! pointer are the caller's business; so is all arithmetic on fractions, which is why the
//! camera's position and matrices are not found here.

pub mod archive;
pub mod camera;
pub mod engine;
pub mod file_system;
pub mod gl;
pub mod input;
pub mod model;
pub mod shader_program;
pub mod texture;
pub mod window;
