//! Owning wrapper around a GPU vertex buffer.

use vstd::prelude::*;

use crate::context::GlCommand;
use crate::context::GlContext;
use crate::context::HandleKind;
use crate::context::ResourceError;
use crate::gl_component::GLComponent;
use crate::gl_constants::GL_ARRAY_BUFFER;
use crate::gl_constants::GL_STATIC_DRAW;

verus! {

/// Owns one GPU buffer handle holding vertex data, from successful
/// construction until [`VertexBuffer::delete`].
///
/// The vertex data itself stays with the host (it is typically
/// floating point); construction takes only its element count and
/// element byte size, which fix the upload size.
pub struct VertexBuffer {
    renderer_id: u32,
}

impl VertexBuffer {
    /// A valid wrapper owns a non-zero handle.
    pub open spec fn wf(self) -> bool {
        self.spec_renderer_id() != 0
    }

    /// The commands construction records for handle `id` and an upload
    /// of `size` bytes: bind the buffer, then upload the data once with
    /// the static-usage hint.
    pub open spec fn creation_commands(id: u32, size: usize) -> Seq<GlCommand> {
        seq![
            GlCommand::BindBuffer { target: GL_ARRAY_BUFFER, id },
            GlCommand::BufferData { target: GL_ARRAY_BUFFER, size, usage: GL_STATIC_DRAW },
        ]
    }

    /// Wrap the driver-created buffer handle `id` and record the upload
    /// of `data_len` elements of `elem_size` bytes each.
    ///
    /// Construction fails exactly when the data is empty, the handle is
    /// the null handle, or the handle already belongs to a live buffer
    /// wrapper; a failed construction leaves the context untouched.
    pub fn new(ctx: &mut GlContext, id: u32, data_len: usize, elem_size: usize) -> (r: Result<
        VertexBuffer,
        ResourceError,
    >)
        requires
            old(ctx).wf(),
            elem_size >= 1,
            data_len * elem_size <= usize::MAX,
        ensures
            final (ctx).wf(),
            data_len == 0 ==> r == Err::<VertexBuffer, ResourceError>(ResourceError::EmptyData)
                && *final (ctx) == *old(ctx),
            data_len > 0 && id == 0 ==> r == Err::<VertexBuffer, ResourceError>(
                ResourceError::ZeroHandle,
            ) && *final (ctx) == *old(ctx),
            data_len > 0 && id != 0 && old(ctx).is_live(HandleKind::Buffer, id) ==> r == Err::<
                VertexBuffer,
                ResourceError,
            >(ResourceError::HandleInUse) && *final (ctx) == *old(ctx),
            data_len > 0 && id != 0 && !old(ctx).is_live(HandleKind::Buffer, id) ==> r is Ok
                && r->Ok_0.spec_renderer_id() == id && r->Ok_0.wf() && final (ctx).live_handles()
                == old(ctx).live_handles().push((HandleKind::Buffer, id)) && final (ctx).log()
                == old(ctx).log() + Self::creation_commands(id, (data_len * elem_size) as usize),
    {
        if data_len == 0 {
            return Err(ResourceError::EmptyData);
        }
        match ctx.acquire(HandleKind::Buffer, id) {
            Err(e) => {
                return Err(e);
            },
            Ok(()) => {},
        }
        let size: usize = data_len * elem_size;
        ctx.record(GlCommand::BindBuffer { target: GL_ARRAY_BUFFER, id });
        ctx.record(GlCommand::BufferData { target: GL_ARRAY_BUFFER, size, usage: GL_STATIC_DRAW });
        proof {
            assert(final (ctx).log() =~= old(ctx).log() + Self::creation_commands(id, size));
        }
        Ok(VertexBuffer { renderer_id: id })
    }

    /// Release the GPU buffer: record its deletion and give up
    /// ownership of the handle.  Consuming the wrapper makes a second
    /// deletion of the same wrapper impossible.
    pub fn delete(self, ctx: &mut GlContext)
        requires
            old(ctx).wf(),
        ensures
            final (ctx).wf(),
            final (ctx).log() == old(ctx).log().push(
                GlCommand::DeleteBuffers { id: self.spec_renderer_id() },
            ),
            !final (ctx).is_live(HandleKind::Buffer, self.spec_renderer_id()),
            forall|p: (HandleKind, u32)|
                p != (HandleKind::Buffer, self.spec_renderer_id()) ==> (final (ctx).live_handles().contains(p) <==> old(ctx).live_handles().contains(p)),
    {
        ctx.release(HandleKind::Buffer, self.renderer_id);
        ctx.record(GlCommand::DeleteBuffers { id: self.renderer_id });
    }
}

impl GLComponent for VertexBuffer {
    closed spec fn spec_renderer_id(&self) -> u32 {
        self.renderer_id
    }

    open spec fn bind_command(&self) -> GlCommand {
        GlCommand::BindBuffer { target: GL_ARRAY_BUFFER, id: self.spec_renderer_id() }
    }

    open spec fn unbind_command(&self) -> GlCommand {
        GlCommand::BindBuffer { target: GL_ARRAY_BUFFER, id: 0 }
    }

    fn renderer_id(&self) -> (r: u32) {
        self.renderer_id
    }

    fn bind(&self, ctx: &mut GlContext) {
        ctx.record(GlCommand::BindBuffer { target: GL_ARRAY_BUFFER, id: self.renderer_id });
    }

    fn unbind(&self, ctx: &mut GlContext) {
        ctx.record(GlCommand::BindBuffer { target: GL_ARRAY_BUFFER, id: 0 });
    }
}

} // verus!
