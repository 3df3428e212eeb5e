//! Explicit model of the connection to the graphics driver.
//!
//! The driver is a foreign C API with global mutable state, so the
//! library does not call it.  A [`GlContext`] records every driver
//! operation the renderer decides to issue as a [`GlCommand`], in order,
//! and tracks which resource handles are currently owned by a live
//! wrapper.  The unverified host drains the command log with
//! [`GlContext::take_commands`] and executes each command against the
//! real driver.
//!
//! The registry of live handles backs the ownership discipline: a
//! handle is registered when a wrapper is successfully constructed
//! around it and released when the wrapper is deleted.  A well-formed
//! context never holds a zero handle and never holds the same handle
//! twice for the same namespace.

use vstd::prelude::*;

verus! {

/// Namespace of a GPU resource handle.  The driver numbers buffers,
/// vertex arrays, textures and programs independently, so a handle is
/// only meaningful together with its kind.
#[derive(Clone, Copy, PartialEq, Eq, Structural, Debug)]
pub enum HandleKind {
    /// Vertex or index buffer object.
    Buffer,
    /// Vertex array object.
    VertexArrayObject,
    /// Two-dimensional texture object.
    Texture2d,
    /// Linked shader program object.
    Program,
}

/// One driver operation, with the exact arguments the renderer chose.
/// Index data is plain integers and travels inside its upload command;
/// other payloads (vertex data, pixels) stay with the host, and their
/// commands carry only sizes and plain values.
#[derive(Clone, PartialEq, Eq, Debug)]
pub enum GlCommand {
    /// Bind buffer `id` to the binding point `target`.
    BindBuffer { target: u32, id: u32 },
    /// Upload `size` bytes of the host's pending data to the buffer
    /// bound at `target`, with the given usage hint.
    BufferData { target: u32, size: usize, usage: u32 },
    /// Upload the given 32-bit words to the buffer bound at `target`,
    /// with the given usage hint.
    BufferDataU32 { target: u32, data: Vec<u32>, usage: u32 },
    /// Bind vertex array `id`.
    BindVertexArray { id: u32 },
    /// Enable the vertex attribute at slot `index`.
    EnableVertexAttribArray { index: u32 },
    /// Configure the vertex attribute at slot `index`.
    VertexAttribPointer {
        index: u32,
        count: u32,
        gl_type: u32,
        normalized: bool,
        stride: u32,
        offset: u32,
    },
    /// Make program `id` current.
    UseProgram { id: u32 },
    /// Draw `index_count` indices of the bound index buffer as `mode`.
    DrawElements { mode: u32, index_count: i32, index_type: u32 },
    /// Select the texture unit `unit`.
    ActiveTexture { unit: u32 },
    /// Bind texture `id` to the target `target`.
    BindTexture { target: u32, id: u32 },
    /// Set the integer texture parameter `pname` to `param`.
    TexParameteri { target: u32, pname: u32, param: i32 },
    /// Upload the host's pending pixel data as a two-dimensional image.
    TexImage2D {
        target: u32,
        level: i32,
        internal_format: i32,
        width: i32,
        height: i32,
        border: i32,
        format: u32,
        pixel_type: u32,
    },
    /// Delete buffer `id`.
    DeleteBuffers { id: u32 },
    /// Delete vertex array `id`.
    DeleteVertexArrays { id: u32 },
    /// Delete texture `id`.
    DeleteTextures { id: u32 },
}

/// Why a wrapper could not be constructed around a handle.
#[derive(Clone, Copy, PartialEq, Eq, Structural, Debug)]
pub enum ResourceError {
    /// The driver handed back the null handle, so creation failed.
    ZeroHandle,
    /// The handle already belongs to a live wrapper of the same kind.
    HandleInUse,
    /// The initial data is empty; a resource with no content cannot be
    /// uploaded.
    EmptyData,
}

/// The recorded command log plus the registry of live handles.
pub struct GlContext {
    commands: Vec<GlCommand>,
    live: Vec<(HandleKind, u32)>,
}

impl GlContext {
    /// The commands recorded so far, oldest first.
    pub closed spec fn log(self) -> Seq<GlCommand> {
        self.commands@
    }

    /// The handles currently owned by live wrappers, in registration
    /// order.
    pub closed spec fn live_handles(self) -> Seq<(HandleKind, u32)> {
        self.live@
    }

    /// Whether `id` is owned by a live wrapper of namespace `kind`.
    pub open spec fn is_live(self, kind: HandleKind, id: u32) -> bool {
        self.live_handles().contains((kind, id))
    }

    /// Well-formedness: no live handle is zero, and no handle is owned
    /// twice within one namespace.
    pub open spec fn wf(self) -> bool {
        &&& forall|i: int|
            0 <= i < self.live_handles().len() ==> (#[trigger] self.live_handles()[i]).1 != 0
        &&& forall|i: int, j: int|
            0 <= i < j < self.live_handles().len() ==> self.live_handles()[i]
                != self.live_handles()[j]
    }

    /// A fresh context: nothing recorded, nothing live.
    pub fn new() -> (ctx: GlContext)
        ensures
            ctx.wf(),
            ctx.log() == Seq::<GlCommand>::empty(),
            ctx.live_handles() == Seq::<(HandleKind, u32)>::empty(),
    {
        GlContext { commands: Vec::new(), live: Vec::new() }
    }

    /// Whether a live wrapper of namespace `kind` owns `id`.
    pub fn live_contains(&self, kind: HandleKind, id: u32) -> (r: bool)
        ensures
            r == self.is_live(kind, id),
    {
        let n = self.live.len();
        let mut i: usize = 0;
        while i < n
            invariant
                n == self.live@.len(),
                0 <= i <= n,
                forall|j: int| 0 <= j < i ==> self.live@[j] != (kind, id),
            decreases n - i,
        {
            let (k, h) = self.live[i];
            if k == kind && h == id {
                assert(self.live@[i as int] == (kind, id));
                return true;
            }
            i += 1;
        }
        assert(!self.live@.contains((kind, id)));
        false
    }

    /// Append one command to the log.
    pub(crate) fn record(&mut self, cmd: GlCommand)
        ensures
            final (self).log() == old(self).log().push(cmd),
            final (self).live_handles() == old(self).live_handles(),
    {
        self.commands.push(cmd);
    }

    /// Register `id` as owned by a new wrapper of namespace `kind`.
    /// Fails on the null handle and on a handle already owned.
    pub(crate) fn acquire(&mut self, kind: HandleKind, id: u32) -> (r: Result<(), ResourceError>)
        requires
            old(self).wf(),
        ensures
            final (self).wf(),
            final (self).log() == old(self).log(),
            id == 0 ==> r == Err::<(), ResourceError>(ResourceError::ZeroHandle)
                && *final (self) == *old(self),
            id != 0 && old(self).is_live(kind, id)
                ==> r == Err::<(), ResourceError>(ResourceError::HandleInUse)
                && *final (self) == *old(self),
            id != 0 && !old(self).is_live(kind, id)
                ==> r == Ok::<(), ResourceError>(())
                && final (self).live_handles() == old(self).live_handles().push((kind, id)),
    {
        if id == 0 {
            return Err(ResourceError::ZeroHandle);
        }
        if self.live_contains(kind, id) {
            return Err(ResourceError::HandleInUse);
        }
        self.live.push((kind, id));
        Ok(())
    }

    /// Drop ownership of `id` in namespace `kind`.  Ownership of every
    /// other handle is unchanged; a handle that was not owned leaves the
    /// context untouched.
    pub(crate) fn release(&mut self, kind: HandleKind, id: u32)
        requires
            old(self).wf(),
        ensures
            final (self).wf(),
            final (self).log() == old(self).log(),
            !final (self).is_live(kind, id),
            forall|p: (HandleKind, u32)|
                p != (kind, id) ==> (final (self).live_handles().contains(p)
                    <==> old(self).live_handles().contains(p)),
            old(self).is_live(kind, id)
                ==> final (self).live_handles().len() == old(self).live_handles().len() - 1,
            !old(self).is_live(kind, id) ==> *final (self) == *old(self),
    {
        let ghost s0 = old(self).live@;
        let n = self.live.len();
        let mut i: usize = 0;
        while i < n
            invariant
                *self == *old(self),
                old(self).wf(),
                s0 == old(self).live@,
                n == s0.len(),
                0 <= i <= n,
                forall|j: int| 0 <= j < i ==> s0[j] != (kind, id),
            decreases n - i,
        {
            let (k, h) = self.live[i];
            if k == kind && h == id {
                assert(self.live@[i as int] == (kind, id));
                self.live.remove(i);
                proof {
                    let s1 = self.live@;
                    assert(s1 == s0.remove(i as int));
                    s0.remove_ensures(i as int);
                    assert forall|a: int, b: int| 0 <= a < b < s0.len() implies s0[a] != s0[b] by {
                        assert(old(self).live_handles()[a] != old(self).live_handles()[b]);
                    }
                    assert forall|a: int| 0 <= a < s0.len() implies s0[a].1 != 0 by {
                        assert(old(self).live_handles()[a].1 != 0);
                    }
                    assert forall|j: int| 0 <= j < s1.len() implies s1[j] != (kind, id) by {
                        if j < i {
                            assert(s1[j] == s0[j]);
                        } else {
                            assert(s1[j] == s0[j + 1]);
                            // distinctness of s0 rules out a second occurrence
                            assert(s0[i as int] == (kind, id));
                            assert(s0[j + 1] != s0[i as int]);
                        }
                    }
                    assert(!s1.contains((kind, id)));
                    assert forall|p: (HandleKind, u32)|
                        p != (kind, id) implies (s1.contains(p) <==> s0.contains(p)) by {
                        if s1.contains(p) {
                            let j = choose|j: int| 0 <= j < s1.len() && s1[j] == p;
                            if j < i {
                                assert(s0[j] == p);
                            } else {
                                assert(s0[j + 1] == p);
                            }
                        }
                        if s0.contains(p) {
                            let j = choose|j: int| 0 <= j < s0.len() && s0[j] == p;
                            if j < i {
                                assert(s1[j] == p);
                            } else {
                                assert(j != i);
                                assert(s1[j - 1] == p);
                            }
                        }
                    }
                    assert(s0.contains((kind, id)));
                    assert forall|a: int, b: int|
                        0 <= a < b < s1.len() implies s1[a] != s1[b] by {
                        if b < i {
                            assert(s1[a] == s0[a] && s1[b] == s0[b]);
                        } else if a < i {
                            assert(s1[a] == s0[a] && s1[b] == s0[b + 1]);
                        } else {
                            assert(s1[a] == s0[a + 1] && s1[b] == s0[b + 1]);
                        }
                    }
                    assert forall|a: int| 0 <= a < s1.len() implies s1[a].1 != 0 by {
                        if a < i {
                            assert(s1[a] == s0[a]);
                        } else {
                            assert(s1[a] == s0[a + 1]);
                        }
                    }
                }
                return ;
            }
            i += 1;
        }
        proof {
            assert(!self.live@.contains((kind, id)));
        }
    }

    /// Hand the recorded commands to the host and clear the log.  The
    /// registry of live handles is untouched.
    pub fn take_commands(&mut self) -> (cmds: Vec<GlCommand>)
        ensures
            cmds@ == old(self).log(),
            final (self).log() == Seq::<GlCommand>::empty(),
            final (self).live_handles() == old(self).live_handles(),
    {
        let mut out: Vec<GlCommand> = Vec::new();
        core::mem::swap(&mut out, &mut self.commands);
        out
    }
}

/// Law: while a wrapper is alive, its handle is non-zero, and no later,
/// unrelated wrapper of the same namespace owns the same handle.
pub proof fn lemma_live_handles_unique(ctx: GlContext, i: int, j: int)
    requires
        ctx.wf(),
        0 <= i < ctx.live_handles().len(),
        0 <= j < ctx.live_handles().len(),
        i != j,
    ensures
        ctx.live_handles()[i].1 != 0,
        ctx.live_handles()[i] != ctx.live_handles()[j],
{
}

} // verus!
