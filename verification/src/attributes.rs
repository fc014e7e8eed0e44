//! Requested framebuffer attributes.

use vstd::prelude::*;

verus! {

/// The attribute set a caller requests for a context's framebuffer.
///
/// A value is immutable once constructed. [`GLContextAttributes::any`] is the
/// sentinel request that accepts the backend's default format.
///
/// Negotiation against these attributes is strict: a backend either satisfies
/// a request exactly or refuses it; an unsupported request is never answered
/// with a silently substituted format.
#[derive(Clone, Copy, Debug, PartialEq, Eq, Structural)]
pub struct GLContextAttributes {
    pub alpha: bool,
    pub depth: bool,
    pub stencil: bool,
    pub antialias: bool,
    pub premultiplied_alpha: bool,
    pub preserve_drawing_buffer: bool,
}

impl GLContextAttributes {
    /// The sentinel request meaning "any format the backend considers its
    /// default": an RGBA format with a depth buffer and nothing further.
    pub open spec fn spec_any() -> GLContextAttributes {
        GLContextAttributes {
            alpha: true,
            depth: true,
            stencil: false,
            antialias: false,
            premultiplied_alpha: false,
            preserve_drawing_buffer: false,
        }
    }

    /// The sentinel request meaning "any format the backend considers its
    /// default": an RGBA format with a depth buffer and nothing further.
    pub fn any() -> (r: GLContextAttributes)
        ensures
            r == GLContextAttributes::spec_any(),
    {
        GLContextAttributes {
            alpha: true,
            depth: true,
            stencil: false,
            antialias: false,
            premultiplied_alpha: false,
            preserve_drawing_buffer: false,
        }
    }
}

} // verus!
