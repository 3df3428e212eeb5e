//! The draw operation: bind a shader, vertex array and index buffer
//! triple and issue the indexed draw call.
//!
//! The clear operation is not here: a clear color is floating point
//! and lives with the unverified host, which records and executes the
//! clear against the driver directly.

use vstd::prelude::*;

use crate::context::GlCommand;
use crate::context::GlContext;
use crate::gl_component::GLComponent;
use crate::gl_constants::GL_TRIANGLES;
use crate::gl_constants::GL_UNSIGNED_INT;
use crate::index_buffer::IndexBuffer;
use crate::shader::Shader;
use crate::vertex_array::VertexArray;

verus! {

/// The example content draws two-triangle quads: six indices per draw.
pub const QUAD_INDEX_COUNT: i32 = 6;

/// The commands a draw of `index_count` indices records: bind the
/// shader, the vertex array and the index buffer, in that order, then
/// draw that many indices as triangles with unsigned-int indices.
pub open spec fn draw_commands_counted(
    va: &VertexArray,
    ib: &IndexBuffer,
    shader: &Shader,
    index_count: i32,
) -> Seq<GlCommand> {
    seq![
        shader.bind_command(),
        va.bind_command(),
        ib.bind_command(),
        GlCommand::DrawElements { mode: GL_TRIANGLES, index_count, index_type: GL_UNSIGNED_INT },
    ]
}

/// The commands the quad draw records: a draw of the fixed six-index
/// two-triangle quad.
pub open spec fn draw_commands(va: &VertexArray, ib: &IndexBuffer, shader: &Shader) -> Seq<
    GlCommand,
> {
    draw_commands_counted(va, ib, shader, QUAD_INDEX_COUNT)
}

/// Bind the three components in order and record an indexed draw call
/// of `index_count` indices.  The set of live handles is untouched.
pub fn draw_indexed(
    ctx: &mut GlContext,
    va: &VertexArray,
    ib: &IndexBuffer,
    shader: &Shader,
    index_count: i32,
)
    requires
        index_count >= 0,
    ensures
        final (ctx).live_handles() == old(ctx).live_handles(),
        final (ctx).log() == old(ctx).log() + draw_commands_counted(va, ib, shader, index_count),
{
    shader.bind(ctx);
    va.bind(ctx);
    ib.bind(ctx);
    ctx.record(
        GlCommand::DrawElements { mode: GL_TRIANGLES, index_count, index_type: GL_UNSIGNED_INT },
    );
    proof {
        assert(ctx.log() =~= old(ctx).log() + draw_commands_counted(va, ib, shader, index_count));
    }
}

/// Bind the three components in order and record the draw of the
/// fixed six-index two-triangle quad the example content uses.
pub fn draw(ctx: &mut GlContext, va: &VertexArray, ib: &IndexBuffer, shader: &Shader)
    ensures
        final (ctx).live_handles() == old(ctx).live_handles(),
        final (ctx).log() == old(ctx).log() + draw_commands(va, ib, shader),
{
    draw_indexed(ctx, va, ib, shader, QUAD_INDEX_COUNT);
}

} // verus!
