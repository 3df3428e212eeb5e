//! Numeric values of the OpenGL enums the renderer uses.
//!
//! The driver API identifies targets, types and modes by fixed numeric
//! tags; these are their values as the OpenGL specification defines them.

use vstd::prelude::*;

verus! {

/// Primitive type tag: 32-bit float.
pub const GL_FLOAT: u32 = 0x1406;
/// Primitive type tag: unsigned 32-bit integer.
pub const GL_UNSIGNED_INT: u32 = 0x1405;
/// Primitive type tag: unsigned byte.
pub const GL_UNSIGNED_BYTE: u32 = 0x1401;

/// Buffer target for vertex data.
pub const GL_ARRAY_BUFFER: u32 = 0x8892;
/// Buffer target for index data.
pub const GL_ELEMENT_ARRAY_BUFFER: u32 = 0x8893;
/// Usage hint: data is uploaded once and drawn many times.
pub const GL_STATIC_DRAW: u32 = 0x88E4;

/// Draw mode: triangles.
pub const GL_TRIANGLES: u32 = 0x0004;

/// Texture target for two-dimensional textures.
pub const GL_TEXTURE_2D: u32 = 0x0DE1;
/// First texture unit; unit `n` is `GL_TEXTURE0 + n`.
pub const GL_TEXTURE0: u32 = 0x84C0;
/// Texture parameter: minification filter.
pub const GL_TEXTURE_MIN_FILTER: u32 = 0x2801;
/// Texture parameter: magnification filter.
pub const GL_TEXTURE_MAG_FILTER: u32 = 0x2800;
/// Texture parameter: wrap mode along s.
pub const GL_TEXTURE_WRAP_S: u32 = 0x2802;
/// Texture parameter: wrap mode along t.
pub const GL_TEXTURE_WRAP_T: u32 = 0x2803;
/// Filter value: linear interpolation.
pub const GL_LINEAR: u32 = 0x2601;
/// Wrap value: clamp to the edge texel.
pub const GL_CLAMP_TO_EDGE: u32 = 0x812F;
/// Pixel format: red, green, blue.
pub const GL_RGB: u32 = 0x1907;
/// Internal format: 8 bits per RGB channel.
pub const GL_RGB8: u32 = 0x8051;

/// Error code: no error pending.
pub const GL_NO_ERROR: u32 = 0x0000;
/// Error code: an enum argument was out of range.
pub const GL_INVALID_ENUM: u32 = 0x0500;
/// Error code: a numeric argument was out of range.
pub const GL_INVALID_VALUE: u32 = 0x0501;
/// Error code: the operation is not allowed in the current state.
pub const GL_INVALID_OPERATION: u32 = 0x0502;
/// Error code: a stack-pushing operation overflowed.
pub const GL_STACK_OVERFLOW: u32 = 0x0503;
/// Error code: a stack-popping operation underflowed.
pub const GL_STACK_UNDERFLOW: u32 = 0x0504;
/// Error code: the driver could not allocate memory.
pub const GL_OUT_OF_MEMORY: u32 = 0x0505;

} // verus!
