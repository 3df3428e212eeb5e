//! Common capability set of the GPU object wrappers.

use vstd::prelude::*;

use crate::context::GlCommand;
use crate::context::GlContext;

verus! {

/// A GPU object wrapper: it owns exactly one resource handle and can
/// make its resource, or the null resource, current in its binding
/// slot.  Binding records the wrapper's command in the context and
/// touches nothing else.
pub trait GLComponent {
    /// The handle this wrapper owns.
    spec fn spec_renderer_id(&self) -> u32;

    /// The command that makes this resource current.
    spec fn bind_command(&self) -> GlCommand;

    /// The command that makes the null resource current in the same
    /// binding slot.
    spec fn unbind_command(&self) -> GlCommand;

    /// The owned resource handle.
    fn renderer_id(&self) -> (r: u32)
        ensures
            r == self.spec_renderer_id(),
    ;

    /// Make this resource current: record the bind command.
    fn bind(&self, ctx: &mut GlContext)
        ensures
            final (ctx).log() == old(ctx).log().push(self.bind_command()),
            final (ctx).live_handles() == old(ctx).live_handles(),
    ;

    /// Make the null resource current in this slot: record the unbind
    /// command.
    fn unbind(&self, ctx: &mut GlContext)
        ensures
            final (ctx).log() == old(ctx).log().push(self.unbind_command()),
            final (ctx).live_handles() == old(ctx).live_handles(),
    ;
}

} // verus!
