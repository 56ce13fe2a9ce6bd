//! Procedural wallpaper rendering core.
//!
//! The crate models the render pipeline of a GPU wallpaper generator: the
//! shader preset registry, the renderer state that owns every GPU object,
//! the multi-pass post-processing pipeline built on a ping-pong pair of
//! off-screen targets, and the offscreen capture path. GPU work itself is
//! carried out by a thin driver around this crate; the library decides what
//! to do and proves the decisions correct.

pub mod capture;
pub mod export;
pub mod image_buffers;
pub mod palette;
pub mod params;
pub mod renderer;
pub mod shader;
pub mod shader_presets;
pub mod text;
pub mod wallpaper;
