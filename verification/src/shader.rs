//! Shader program handles and the errors a shader build can produce.
//!
//! Compiling and linking happen on the GPU through the driver around the
//! library; the library receives the outcome as a value of these types and
//! decides what to do with it.

use vstd::prelude::*;

verus! {

/// Identifier of a GPU object: a program, buffer, texture or framebuffer
/// handle as the graphics context issued it.
pub type GlId = u32;

/// A successfully compiled and linked shader program, identified by its
/// GPU handle. Whoever holds the value owns the program and must release
/// it exactly once.
#[derive(Debug, Clone, Copy, PartialEq, Eq, Structural)]
pub struct ShaderProgram {
    pub id: GlId,
}

/// The stage of a shader build that failed to compile.
#[derive(Debug, Clone, Copy, PartialEq, Eq, Structural)]
pub enum ShaderStage {
    Vertex,
    Fragment,
}

/// Failure of a shader build: one stage failed to compile, or the two
/// stages compiled but did not link. The log carries the driver's
/// diagnostic text.
#[derive(Debug, Clone, PartialEq, Eq)]
pub enum ShaderError {
    Compile { stage: ShaderStage, log: String },
    Link { log: String },
}

/// The error of a preset switch whose name is not registered.
#[derive(Debug, Clone, PartialEq, Eq)]
pub struct UnknownPresetError {
    pub name: String,
}

} // verus!
