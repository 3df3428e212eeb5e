//! Verified core of a small OpenGL rendering layer.
//!
//! The library owns the logic of the renderer: vertex-layout bookkeeping,
//! shader-source splitting, GPU error translation, and the lifecycle of
//! GPU resource handles.  The graphics driver itself is a foreign, unsafe
//! C API, so the library never calls it directly.  Instead, every driver
//! operation is recorded as a [`context::GlCommand`] in an explicit
//! [`context::GlContext`] value; an unverified host executes the recorded
//! commands against the real driver in order.  Contracts therefore pin
//! down exactly which commands each operation issues, with which
//! arguments, and how the set of live resource handles changes.

use vstd::prelude::*;

pub mod context;
pub mod gl_component;
pub mod gl_error;
pub mod gl_constants;
pub mod index_buffer;
pub mod renderer;
pub mod shader;
pub mod texture;

pub use gl_error::gl_log_errors;
pub use shader::ShaderBuilder;
pub mod vertex_array;
pub mod vertex_buffer;
pub mod vertex_buffer_layout;

verus! {

} // verus!
