//! Owning wrapper around a GPU vertex array object, and the
//! composition of a vertex buffer with a layout.

use vstd::prelude::*;

use crate::context::GlCommand;
use crate::context::GlContext;
use crate::context::HandleKind;
use crate::context::ResourceError;
use crate::gl_component::GLComponent;
use crate::vertex_buffer::VertexBuffer;
use crate::vertex_buffer_layout::elements_size;
use crate::vertex_buffer_layout::lemma_prefix_size_bounds;
use crate::vertex_buffer_layout::VertexBufferElement;
use crate::vertex_buffer_layout::VertexBufferLayout;

verus! {

/// Owns one GPU vertex array handle, from successful construction
/// until [`VertexArray::delete`].
pub struct VertexArray {
    renderer_id: u32,
}

/// The attribute commands recorded for the elements of a layout, in
/// insertion order.  Element `k` occupies attribute slot `k` and is
/// configured with the layout's stride and with the byte offset
/// accumulated over the elements before it.
pub open spec fn attrib_commands(elems: Seq<VertexBufferElement>, stride: u32) -> Seq<GlCommand>
    decreases elems.len(),
{
    if elems.len() == 0 {
        Seq::<GlCommand>::empty()
    } else {
        attrib_commands(elems.drop_last(), stride) + seq![
            GlCommand::EnableVertexAttribArray { index: (elems.len() - 1) as u32 },
            GlCommand::VertexAttribPointer {
                index: (elems.len() - 1) as u32,
                count: elems.last().spec_count(),
                gl_type: elems.last().spec_gl_type(),
                normalized: elems.last().spec_normalized(),
                stride,
                offset: elements_size(elems.drop_last()) as u32,
            },
        ]
    }
}

/// Two commands are recorded for each element.
pub proof fn lemma_attrib_commands_len(elems: Seq<VertexBufferElement>, stride: u32)
    ensures
        attrib_commands(elems, stride).len() == 2 * elems.len(),
    decreases elems.len(),
{
    if elems.len() > 0 {
        lemma_attrib_commands_len(elems.drop_last(), stride);
    }
}

/// Law: for every element `k` of a valid layout, the recorded commands
/// enable attribute slot `k` and configure it with the element's type,
/// count and flag, the layout's stride, and a byte offset equal to the
/// summed byte size of elements `[0..k)`.
pub proof fn lemma_attrib_offsets(elems: Seq<VertexBufferElement>, stride: u32, k: int)
    requires
        forall|i: int| 0 <= i < elems.len() ==> (#[trigger] elems[i]).wf(),
        0 <= k < elems.len(),
    ensures
        attrib_commands(elems, stride)[2 * k] == (GlCommand::EnableVertexAttribArray {
            index: k as u32,
        }),
        attrib_commands(elems, stride)[2 * k + 1] == (GlCommand::VertexAttribPointer {
            index: k as u32,
            count: elems[k].spec_count(),
            gl_type: elems[k].spec_gl_type(),
            normalized: elems[k].spec_normalized(),
            stride,
            offset: elements_size(elems.take(k)) as u32,
        }),
    decreases elems.len(),
{
    lemma_attrib_commands_len(elems, stride);
    lemma_attrib_commands_len(elems.drop_last(), stride);
    if k == elems.len() - 1 {
        assert(elems.take(k) =~= elems.drop_last());
    } else {
        assert forall|i: int|
            0 <= i < elems.drop_last().len() implies (#[trigger] elems.drop_last()[i]).wf() by {
            assert(elems[i].wf());
        }
        lemma_attrib_offsets(elems.drop_last(), stride, k);
        assert(elems.drop_last().take(k) =~= elems.take(k));
        assert(elems.drop_last()[k] == elems[k]);
    }
}

impl VertexArray {
    /// A valid wrapper owns a non-zero handle.
    pub open spec fn wf(self) -> bool {
        self.spec_renderer_id() != 0
    }

    /// The command construction records for handle `id`: bind the new
    /// vertex array.
    pub open spec fn creation_commands(id: u32) -> Seq<GlCommand> {
        seq![GlCommand::BindVertexArray { id }]
    }

    /// Wrap the driver-created vertex array handle `id` and record its
    /// initial bind.
    ///
    /// Construction fails exactly when the handle is the null handle or
    /// already belongs to a live vertex array wrapper; a failed
    /// construction leaves the context untouched.
    pub fn new(ctx: &mut GlContext, id: u32) -> (r: Result<VertexArray, ResourceError>)
        requires
            old(ctx).wf(),
        ensures
            final (ctx).wf(),
            id == 0 ==> r == Err::<VertexArray, ResourceError>(ResourceError::ZeroHandle)
                && *final (ctx) == *old(ctx),
            id != 0 && old(ctx).is_live(HandleKind::VertexArrayObject, id) ==> r == Err::<
                VertexArray,
                ResourceError,
            >(ResourceError::HandleInUse) && *final (ctx) == *old(ctx),
            id != 0 && !old(ctx).is_live(HandleKind::VertexArrayObject, id) ==> r is Ok
                && r->Ok_0.spec_renderer_id() == id && r->Ok_0.wf() && final (ctx).live_handles()
                == old(ctx).live_handles().push((HandleKind::VertexArrayObject, id)) && final (
                ctx
            ).log() == old(ctx).log() + Self::creation_commands(id),
    {
        match ctx.acquire(HandleKind::VertexArrayObject, id) {
            Err(e) => {
                return Err(e);
            },
            Ok(()) => {},
        }
        ctx.record(GlCommand::BindVertexArray { id });
        proof {
            assert(final (ctx).log() =~= old(ctx).log() + Self::creation_commands(id));
        }
        Ok(VertexArray { renderer_id: id })
    }

    /// Bind this vertex array and the given buffer, then enable and
    /// configure one attribute slot per layout element, in insertion
    /// order: slot `k` takes element `k`'s component count, type and
    /// normalization flag, the layout's total stride, and the byte
    /// offset accumulated over elements `[0..k)`.
    pub fn add_buffer(&mut self, ctx: &mut GlContext, buffer: &VertexBuffer, layout: &VertexBufferLayout)
        requires
            old(ctx).wf(),
            layout.wf(),
        ensures
            *final (self) == *old(self),
            final (ctx).wf(),
            final (ctx).live_handles() == old(ctx).live_handles(),
            final (ctx).log() == old(ctx).log() + seq![
                old(self).bind_command(),
                buffer.bind_command(),
            ] + attrib_commands(layout.spec_elements(), layout.spec_stride()),
    {
        proof {
            lemma_prefix_size_bounds(layout.spec_elements(), layout.spec_elements().len() as int);
        }
        self.bind(ctx);
        buffer.bind(ctx);
        let ghost log_base = ctx.log();
        let ghost elems = layout.spec_elements();
        let ghost stride_s = layout.spec_stride();
        let elements = layout.elements();
        let n = elements.len();
        let stride = layout.stride();
        let mut offset: u32 = 0;
        let mut i: usize = 0;
        while i < n
            invariant
                layout.wf(),
                elems == layout.spec_elements(),
                stride_s == layout.spec_stride(),
                elements@ == elems,
                n == elems.len(),
                stride == stride_s,
                0 <= i <= n,
                offset == elements_size(elems.take(i as int)),
                ctx.wf(),
                ctx.live_handles() == old(ctx).live_handles(),
                ctx.log() == log_base + attrib_commands(elems.take(i as int), stride_s),
            decreases n - i,
        {
            proof {
                lemma_prefix_size_bounds(elems, n as int);
                lemma_prefix_size_bounds(elems, i as int);
                lemma_prefix_size_bounds(elems, i + 1);
                assert(elems[i as int].wf());
            }
            let e = elements[i];
            let slot: u32 = i as u32;
            ctx.record(GlCommand::EnableVertexAttribArray { index: slot });
            ctx.record(
                GlCommand::VertexAttribPointer {
                    index: slot,
                    count: e.count(),
                    gl_type: e.gl_type(),
                    normalized: e.normalized(),
                    stride,
                    offset,
                },
            );
            proof {
                let pre = elems.take(i as int);
                let cur = elems.take(i + 1);
                assert(cur.drop_last() =~= pre);
                assert(cur.last() == elems[i as int]);
                assert(attrib_commands(cur, stride_s) == attrib_commands(pre, stride_s) + seq![
                    GlCommand::EnableVertexAttribArray { index: (cur.len() - 1) as u32 },
                    GlCommand::VertexAttribPointer {
                        index: (cur.len() - 1) as u32,
                        count: cur.last().spec_count(),
                        gl_type: cur.last().spec_gl_type(),
                        normalized: cur.last().spec_normalized(),
                        stride: stride_s,
                        offset: elements_size(cur.drop_last()) as u32,
                    },
                ]);
                assert(ctx.log() =~= log_base + attrib_commands(cur, stride_s));
            }
            offset = offset + e.count() * crate::vertex_buffer_layout::size_of_type(e.gl_type());
            i += 1;
            proof {
                assert(elements_size(elems.take(i as int)) == elements_size(
                    elems.take(i - 1),
                ) + elems[i - 1].byte_size());
            }
        }
        proof {
            assert(elems.take(n as int) =~= elems);
            assert(ctx.log() =~= old(ctx).log() + seq![
                old(self).bind_command(),
                buffer.bind_command(),
            ] + attrib_commands(elems, stride_s));
        }
    }

    /// Release the GPU vertex array: record its deletion and give up
    /// ownership of the handle.  Consuming the wrapper makes a second
    /// deletion of the same wrapper impossible.
    pub fn delete(self, ctx: &mut GlContext)
        requires
            old(ctx).wf(),
        ensures
            final (ctx).wf(),
            final (ctx).log() == old(ctx).log().push(
                GlCommand::DeleteVertexArrays { id: self.spec_renderer_id() },
            ),
            !final (ctx).is_live(HandleKind::VertexArrayObject, self.spec_renderer_id()),
            forall|p: (HandleKind, u32)|
                p != (HandleKind::VertexArrayObject, self.spec_renderer_id()) ==> (final (ctx).live_handles().contains(p) <==> old(ctx).live_handles().contains(p)),
    {
        ctx.release(HandleKind::VertexArrayObject, self.renderer_id);
        ctx.record(GlCommand::DeleteVertexArrays { id: self.renderer_id });
    }
}

impl GLComponent for VertexArray {
    closed spec fn spec_renderer_id(&self) -> u32 {
        self.renderer_id
    }

    open spec fn bind_command(&self) -> GlCommand {
        GlCommand::BindVertexArray { id: self.spec_renderer_id() }
    }

    open spec fn unbind_command(&self) -> GlCommand {
        GlCommand::BindVertexArray { id: 0 }
    }

    fn renderer_id(&self) -> (r: u32) {
        self.renderer_id
    }

    fn bind(&self, ctx: &mut GlContext) {
        ctx.record(GlCommand::BindVertexArray { id: self.renderer_id });
    }

    fn unbind(&self, ctx: &mut GlContext) {
        ctx.record(GlCommand::BindVertexArray { id: 0 });
    }
}

} // verus!
