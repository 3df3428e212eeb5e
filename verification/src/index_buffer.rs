//! Owning wrapper around a GPU index buffer.

use vstd::prelude::*;

use crate::context::GlCommand;
use crate::context::GlContext;
use crate::context::HandleKind;
use crate::context::ResourceError;
use crate::gl_component::GLComponent;
use crate::gl_constants::GL_ELEMENT_ARRAY_BUFFER;
use crate::gl_constants::GL_STATIC_DRAW;

verus! {

/// Owns one GPU buffer handle holding index data, from successful
/// construction until [`IndexBuffer::delete`].
pub struct IndexBuffer {
    renderer_id: u32,
}

/// How many `DeleteBuffers` commands for handle `id` the log holds.
pub open spec fn count_delete_buffers(log: Seq<GlCommand>, id: u32) -> int
    decreases log.len(),
{
    if log.len() == 0 {
        0
    } else {
        count_delete_buffers(log.drop_last(), id) + if log.last() == (GlCommand::DeleteBuffers {
            id,
        }) {
            1int
        } else {
            0int
        }
    }
}

/// An exact copy of the index words, for the upload command to carry.
fn copy_words(data: &Vec<u32>) -> (r: Vec<u32>)
    ensures
        r@ == data@,
{
    let n = data.len();
    let mut out: Vec<u32> = Vec::new();
    let mut i: usize = 0;
    while i < n
        invariant
            n == data@.len(),
            0 <= i <= n,
            out@ == data@.take(i as int),
        decreases n - i,
    {
        out.push(data[i]);
        proof {
            assert(data@.take(i + 1) =~= data@.take(i as int).push(data@[i as int]));
        }
        i += 1;
    }
    proof {
        assert(data@.take(n as int) =~= data@);
    }
    out
}

impl IndexBuffer {
    /// A valid wrapper owns a non-zero handle.
    pub open spec fn wf(self) -> bool {
        self.spec_renderer_id() != 0
    }

    /// The commands construction records for handle `id` and index
    /// words `data`: bind the buffer, then upload exactly those words
    /// once with the static-usage hint.
    pub open spec fn creation_commands_for(cmds: Seq<GlCommand>, id: u32, data: Seq<u32>) -> bool {
        &&& cmds.len() == 2
        &&& cmds[0] == (GlCommand::BindBuffer { target: GL_ELEMENT_ARRAY_BUFFER, id })
        &&& cmds[1] matches GlCommand::BufferDataU32 { target, data: payload, usage }
            && target == GL_ELEMENT_ARRAY_BUFFER && payload@ == data && usage == GL_STATIC_DRAW
    }

    /// Wrap the driver-created buffer handle `id` and record the upload
    /// of `data`: the recorded command carries the index words
    /// themselves, so exactly this data is uploaded, exactly once.
    ///
    /// Construction fails exactly when the data is empty, the handle is
    /// the null handle, or the handle already belongs to a live buffer
    /// wrapper; a failed construction leaves the context untouched.
    pub fn new(ctx: &mut GlContext, id: u32, data: &Vec<u32>) -> (r: Result<
        IndexBuffer,
        ResourceError,
    >)
        requires
            old(ctx).wf(),
        ensures
            final (ctx).wf(),
            data@.len() == 0 ==> r == Err::<IndexBuffer, ResourceError>(ResourceError::EmptyData)
                && *final (ctx) == *old(ctx),
            data@.len() > 0 && id == 0 ==> r == Err::<IndexBuffer, ResourceError>(
                ResourceError::ZeroHandle,
            ) && *final (ctx) == *old(ctx),
            data@.len() > 0 && id != 0 && old(ctx).is_live(HandleKind::Buffer, id) ==> r == Err::<
                IndexBuffer,
                ResourceError,
            >(ResourceError::HandleInUse) && *final (ctx) == *old(ctx),
            data@.len() > 0 && id != 0 && !old(ctx).is_live(HandleKind::Buffer, id) ==> r is Ok
                && r->Ok_0.spec_renderer_id() == id && r->Ok_0.wf() && final (ctx).live_handles()
                == old(ctx).live_handles().push((HandleKind::Buffer, id)) && final (ctx).log().len()
                == old(ctx).log().len() + 2 && final (ctx).log().take(old(ctx).log().len() as int)
                == old(ctx).log() && Self::creation_commands_for(
                final (ctx).log().skip(old(ctx).log().len() as int),
                id,
                data@,
            ),
    {
        if data.len() == 0 {
            return Err(ResourceError::EmptyData);
        }
        match ctx.acquire(HandleKind::Buffer, id) {
            Err(e) => {
                return Err(e);
            },
            Ok(()) => {},
        }
        let words = copy_words(data);
        ctx.record(GlCommand::BindBuffer { target: GL_ELEMENT_ARRAY_BUFFER, id });
        ctx.record(
            GlCommand::BufferDataU32 {
                target: GL_ELEMENT_ARRAY_BUFFER,
                data: words,
                usage: GL_STATIC_DRAW,
            },
        );
        proof {
            let appended = ctx.log().skip(old(ctx).log().len() as int);
            assert(appended.len() == 2);
            assert(appended[0] == (GlCommand::BindBuffer { target: GL_ELEMENT_ARRAY_BUFFER, id }));
            assert(ctx.log().take(old(ctx).log().len() as int) =~= old(ctx).log());
        }
        Ok(IndexBuffer { renderer_id: id })
    }

    /// Release the GPU buffer: record its deletion and give up
    /// ownership of the handle.  Consuming the wrapper makes a second
    /// deletion of the same wrapper impossible.
    pub fn delete(self, ctx: &mut GlContext)
        requires
            old(ctx).wf(),
        ensures
            final (ctx).wf(),
            final (ctx).log() == old(ctx).log().push(
                GlCommand::DeleteBuffers { id: self.spec_renderer_id() },
            ),
            !final (ctx).is_live(HandleKind::Buffer, self.spec_renderer_id()),
            forall|p: (HandleKind, u32)|
                p != (HandleKind::Buffer, self.spec_renderer_id()) ==> (final (ctx).live_handles().contains(p) <==> old(ctx).live_handles().contains(p)),
    {
        ctx.release(HandleKind::Buffer, self.renderer_id);
        ctx.record(GlCommand::DeleteBuffers { id: self.renderer_id });
    }
}

impl GLComponent for IndexBuffer {
    closed spec fn spec_renderer_id(&self) -> u32 {
        self.renderer_id
    }

    open spec fn bind_command(&self) -> GlCommand {
        GlCommand::BindBuffer { target: GL_ELEMENT_ARRAY_BUFFER, id: self.spec_renderer_id() }
    }

    open spec fn unbind_command(&self) -> GlCommand {
        GlCommand::BindBuffer { target: GL_ELEMENT_ARRAY_BUFFER, id: 0 }
    }

    fn renderer_id(&self) -> (r: u32) {
        self.renderer_id
    }

    fn bind(&self, ctx: &mut GlContext) {
        ctx.record(GlCommand::BindBuffer { target: GL_ELEMENT_ARRAY_BUFFER, id: self.renderer_id });
    }

    fn unbind(&self, ctx: &mut GlContext) {
        ctx.record(GlCommand::BindBuffer { target: GL_ELEMENT_ARRAY_BUFFER, id: 0 });
    }
}

/// Law: constructing an index buffer records no deletion of its
/// handle, and deleting it afterwards records exactly one more
/// deletion of that handle than the log held before.
pub proof fn lemma_delete_recorded_once(
    log0: Seq<GlCommand>,
    cmds: Seq<GlCommand>,
    id: u32,
    data: Seq<u32>,
)
    requires
        IndexBuffer::creation_commands_for(cmds, id, data),
    ensures
        count_delete_buffers(log0 + cmds, id) == count_delete_buffers(log0, id),
        count_delete_buffers((log0 + cmds).push(GlCommand::DeleteBuffers { id }), id)
            == count_delete_buffers(log0, id) + 1,
{
    let c1 = cmds[0];
    let c2 = cmds[1];
    assert(c2 != (GlCommand::DeleteBuffers { id }));
    let log1 = log0 + cmds;
    assert(log1 =~= log0.push(c1).push(c2));
    assert(log0.push(c1).drop_last() =~= log0);
    assert(count_delete_buffers(log0.push(c1), id) == count_delete_buffers(log0, id));
    assert(log0.push(c1).push(c2).drop_last() =~= log0.push(c1));
    assert(count_delete_buffers(log0.push(c1).push(c2), id) == count_delete_buffers(
        log0.push(c1),
        id,
    ));
    assert(count_delete_buffers(log1, id) == count_delete_buffers(log0, id));
    let log2 = log1.push(GlCommand::DeleteBuffers { id });
    assert(log2.drop_last() =~= log1);
    assert(log2.last() == GlCommand::DeleteBuffers { id });
}

} // verus!
