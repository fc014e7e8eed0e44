//! Implementation limits detected from a bound context.

use vstd::prelude::*;

verus! {

/// An immutable snapshot of the numeric limits a GL implementation reports.
///
/// A snapshot is taken exactly once, while the owning context is current,
/// during that context's construction; it is stored on the context and never
/// re-queried.
#[derive(Clone, Copy, Debug, PartialEq, Eq, Structural)]
pub struct GLContextCapabilities {
    /// The largest width or height of a texture, in texels.
    pub max_texture_size: u32,
    /// The largest number of samples a multisampled framebuffer may use;
    /// zero on backends without multisampling.
    pub max_samples: u32,
}

} // verus!
