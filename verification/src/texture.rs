//! Owning wrapper around a GPU texture handle plus the decoded image's
//! dimensions.
//!
//! Decoding happens on the host; the pixel data itself is not retained
//! after upload, so the wrapper keeps only the width and height it was
//! uploaded with.

use vstd::prelude::*;

use crate::context::GlCommand;
use crate::context::GlContext;
use crate::context::HandleKind;
use crate::context::ResourceError;
use crate::gl_constants::GL_CLAMP_TO_EDGE;
use crate::gl_constants::GL_LINEAR;
use crate::gl_constants::GL_RGB;
use crate::gl_constants::GL_RGB8;
use crate::gl_constants::GL_TEXTURE0;
use crate::gl_constants::GL_TEXTURE_2D;
use crate::gl_constants::GL_TEXTURE_MAG_FILTER;
use crate::gl_constants::GL_TEXTURE_MIN_FILTER;
use crate::gl_constants::GL_TEXTURE_WRAP_S;
use crate::gl_constants::GL_TEXTURE_WRAP_T;
use crate::gl_constants::GL_UNSIGNED_BYTE;

verus! {

/// Owns one GPU texture handle and remembers the uploaded image's
/// dimensions, from successful construction until [`Texture::delete`].
pub struct Texture {
    renderer_id: u32,
    width: usize,
    height: usize,
}

impl Texture {
    /// The owned handle.
    pub closed spec fn spec_renderer_id(self) -> u32 {
        self.renderer_id
    }

    /// Width of the uploaded image in pixels.
    pub closed spec fn spec_width(self) -> usize {
        self.width
    }

    /// Height of the uploaded image in pixels.
    pub closed spec fn spec_height(self) -> usize {
        self.height
    }

    /// A valid wrapper owns a non-zero handle.
    pub open spec fn wf(self) -> bool {
        self.spec_renderer_id() != 0
    }

    /// The commands construction records for handle `id` and a decoded
    /// image of `width` by `height` pixels: bind the texture, set the
    /// linear filters and edge-clamping wrap modes, upload the pixels
    /// once as RGB bytes, then unbind.
    pub open spec fn creation_commands(id: u32, width: usize, height: usize) -> Seq<GlCommand> {
        seq![
            GlCommand::BindTexture { target: GL_TEXTURE_2D, id },
            GlCommand::TexParameteri {
                target: GL_TEXTURE_2D,
                pname: GL_TEXTURE_MIN_FILTER,
                param: GL_LINEAR as i32,
            },
            GlCommand::TexParameteri {
                target: GL_TEXTURE_2D,
                pname: GL_TEXTURE_MAG_FILTER,
                param: GL_LINEAR as i32,
            },
            GlCommand::TexParameteri {
                target: GL_TEXTURE_2D,
                pname: GL_TEXTURE_WRAP_S,
                param: GL_CLAMP_TO_EDGE as i32,
            },
            GlCommand::TexParameteri {
                target: GL_TEXTURE_2D,
                pname: GL_TEXTURE_WRAP_T,
                param: GL_CLAMP_TO_EDGE as i32,
            },
            GlCommand::TexImage2D {
                target: GL_TEXTURE_2D,
                level: 0,
                internal_format: GL_RGB8 as i32,
                width: width as i32,
                height: height as i32,
                border: 0,
                format: GL_RGB,
                pixel_type: GL_UNSIGNED_BYTE,
            },
            GlCommand::BindTexture { target: GL_TEXTURE_2D, id: 0 },
        ]
    }

    /// Wrap the driver-created texture handle `id` and record the
    /// parameter setup and the upload of a `width` by `height` image.
    ///
    /// Construction fails exactly when the handle is the null handle or
    /// already belongs to a live texture wrapper; a failed construction
    /// leaves the context untouched.
    pub fn new(ctx: &mut GlContext, id: u32, width: usize, height: usize) -> (r: Result<
        Texture,
        ResourceError,
    >)
        requires
            old(ctx).wf(),
            width <= i32::MAX,
            height <= i32::MAX,
        ensures
            final (ctx).wf(),
            id == 0 ==> r == Err::<Texture, ResourceError>(ResourceError::ZeroHandle)
                && *final (ctx) == *old(ctx),
            id != 0 && old(ctx).is_live(HandleKind::Texture2d, id) ==> r == Err::<
                Texture,
                ResourceError,
            >(ResourceError::HandleInUse) && *final (ctx) == *old(ctx),
            id != 0 && !old(ctx).is_live(HandleKind::Texture2d, id) ==> r is Ok
                && r->Ok_0.spec_renderer_id() == id && r->Ok_0.wf() && r->Ok_0.spec_width()
                == width && r->Ok_0.spec_height() == height && final (ctx).live_handles() == old(
                ctx,
            ).live_handles().push((HandleKind::Texture2d, id)) && final (ctx).log() == old(
                ctx,
            ).log() + Self::creation_commands(id, width, height),
    {
        match ctx.acquire(HandleKind::Texture2d, id) {
            Err(e) => {
                return Err(e);
            },
            Ok(()) => {},
        }
        ctx.record(GlCommand::BindTexture { target: GL_TEXTURE_2D, id });
        ctx.record(
            GlCommand::TexParameteri {
                target: GL_TEXTURE_2D,
                pname: GL_TEXTURE_MIN_FILTER,
                param: GL_LINEAR as i32,
            },
        );
        ctx.record(
            GlCommand::TexParameteri {
                target: GL_TEXTURE_2D,
                pname: GL_TEXTURE_MAG_FILTER,
                param: GL_LINEAR as i32,
            },
        );
        ctx.record(
            GlCommand::TexParameteri {
                target: GL_TEXTURE_2D,
                pname: GL_TEXTURE_WRAP_S,
                param: GL_CLAMP_TO_EDGE as i32,
            },
        );
        ctx.record(
            GlCommand::TexParameteri {
                target: GL_TEXTURE_2D,
                pname: GL_TEXTURE_WRAP_T,
                param: GL_CLAMP_TO_EDGE as i32,
            },
        );
        ctx.record(
            GlCommand::TexImage2D {
                target: GL_TEXTURE_2D,
                level: 0,
                internal_format: GL_RGB8 as i32,
                width: width as i32,
                height: height as i32,
                border: 0,
                format: GL_RGB,
                pixel_type: GL_UNSIGNED_BYTE,
            },
        );
        ctx.record(GlCommand::BindTexture { target: GL_TEXTURE_2D, id: 0 });
        proof {
            assert(ctx.log() =~= old(ctx).log() + Self::creation_commands(id, width, height));
        }
        Ok(Texture { renderer_id: id, width, height })
    }

    /// Width of the uploaded image in pixels.
    pub fn width(&self) -> (r: usize)
        ensures
            r == self.spec_width(),
    {
        self.width
    }

    /// Height of the uploaded image in pixels.
    pub fn height(&self) -> (r: usize)
        ensures
            r == self.spec_height(),
    {
        self.height
    }

    /// The owned handle.
    pub fn renderer_id(&self) -> (r: u32)
        ensures
            r == self.spec_renderer_id(),
    {
        self.renderer_id
    }

    /// Make this texture current on texture unit `slot`: select the
    /// unit, then bind.
    pub fn bind(&self, ctx: &mut GlContext, slot: u32)
        requires
            GL_TEXTURE0 + slot <= u32::MAX,
        ensures
            final (ctx).live_handles() == old(ctx).live_handles(),
            final (ctx).log() == old(ctx).log() + seq![
                GlCommand::ActiveTexture { unit: (GL_TEXTURE0 + slot) as u32 },
                GlCommand::BindTexture { target: GL_TEXTURE_2D, id: self.spec_renderer_id() },
            ],
    {
        ctx.record(GlCommand::ActiveTexture { unit: GL_TEXTURE0 + slot });
        ctx.record(GlCommand::BindTexture { target: GL_TEXTURE_2D, id: self.renderer_id });
        proof {
            assert(ctx.log() =~= old(ctx).log() + seq![
                GlCommand::ActiveTexture { unit: (GL_TEXTURE0 + slot) as u32 },
                GlCommand::BindTexture { target: GL_TEXTURE_2D, id: self.spec_renderer_id() },
            ]);
        }
    }

    /// Make the null texture current on the two-dimensional target.
    pub fn unbind(&self, ctx: &mut GlContext)
        ensures
            final (ctx).live_handles() == old(ctx).live_handles(),
            final (ctx).log() == old(ctx).log().push(
                GlCommand::BindTexture { target: GL_TEXTURE_2D, id: 0 },
            ),
    {
        ctx.record(GlCommand::BindTexture { target: GL_TEXTURE_2D, id: 0 });
    }

    /// Release the GPU texture: record its deletion and give up
    /// ownership of the handle.  Consuming the wrapper makes a second
    /// deletion of the same wrapper impossible.
    pub fn delete(self, ctx: &mut GlContext)
        requires
            old(ctx).wf(),
        ensures
            final (ctx).wf(),
            final (ctx).log() == old(ctx).log().push(
                GlCommand::DeleteTextures { id: self.spec_renderer_id() },
            ),
            !final (ctx).is_live(HandleKind::Texture2d, self.spec_renderer_id()),
            forall|p: (HandleKind, u32)|
                p != (HandleKind::Texture2d, self.spec_renderer_id()) ==> (final (ctx).live_handles().contains(p) <==> old(ctx).live_handles().contains(p)),
    {
        ctx.release(HandleKind::Texture2d, self.renderer_id);
        ctx.record(GlCommand::DeleteTextures { id: self.renderer_id });
    }
}

} // verus!
