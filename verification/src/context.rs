//! The rendering context and its lifecycle.
//!
//! Construction is sequenced as: resolve the share peer, invoke the
//! backend's context-creation entry point, make the new context current on
//! its drawable, then take the one capability snapshot. A failure at any
//! step releases every native handle acquired so far before the error is
//! returned; teardown follows the fixed order context before surface.

use vstd::prelude::*;

use crate::attributes::GLContextAttributes;
use crate::backend::Backend;
use crate::backend::config_supported;
use crate::capabilities::GLContextCapabilities;
use crate::errors::Error;
use crate::geometry::Size2D;

verus! {

/// A headless rendering context: a native context handle bound to an
/// off-screen drawable, with the capability snapshot taken at construction.
///
/// The context owns its drawable for its whole lifetime; both are released
/// together by [`GLContext::destroy`]. The connection is long-lived and is
/// not owned: it outlives every context and surface derived from it.
pub struct GLContext {
    native_context: u64,
    native_display: u64,
    native_drawable: u64,
    /// The attribute set the context was requested with.
    pub attributes: GLContextAttributes,
    /// The capability snapshot, detected exactly once, at construction,
    /// while the context was current; never re-queried.
    pub capabilities: GLContextCapabilities,
}

/// Whether `GLContext::new` is owed success on a backend in state `b`:
/// the policy must allow context creation, binding and capability
/// detection, and a fresh handle must remain for the native context.
pub open spec fn context_new_ok<B: Backend>(b: &B) -> bool {
    &&& b.policy().context_creation_ok
    &&& b.policy().make_current_ok
    &&& b.policy().detect_ok
    &&& b.handle_headroom() >= 1
}

/// The error `GLContext::new` reports, determined by the first step of the
/// construction sequence that fails.
pub open spec fn context_new_error<B: Backend>(b: &B) -> Error {
    if !(b.policy().context_creation_ok && b.handle_headroom() >= 1) {
        Error::ContextCreationFailed
    } else if !b.policy().make_current_ok {
        Error::MakeCurrentFailed
    } else {
        Error::CapabilityDetectionFailed
    }
}

/// Whether `GLContext::create_headless` is owed success on a backend in
/// state `b`: every step's policy flag must hold, the size must be at
/// least one pixel each way, and three fresh handles must remain (for the
/// connection, the drawable and the native context).
pub open spec fn create_headless_ok<B: Backend>(b: &B, size: Size2D) -> bool {
    let p = b.policy();
    &&& p.connection_available
    &&& config_supported(p, GLContextAttributes::spec_any())
    &&& p.surface_allocation_ok && size.spec_is_positive()
    &&& p.context_creation_ok && p.make_current_ok && p.detect_ok
    &&& b.handle_headroom() >= 3
}

/// The error `GLContext::create_headless` reports, determined by the
/// first step of its sequence that fails.
pub open spec fn create_headless_error<B: Backend>(b: &B, size: Size2D) -> Error {
    let p = b.policy();
    if !(p.connection_available && b.handle_headroom() >= 1) {
        Error::ConnectionUnavailable
    } else if !config_supported(p, GLContextAttributes::spec_any()) {
        Error::ConfigurationUnsupported
    } else if !(p.surface_allocation_ok && size.spec_is_positive() && b.handle_headroom() >= 2) {
        Error::AllocationFailed
    } else if !(p.context_creation_ok && b.handle_headroom() >= 3) {
        Error::ContextCreationFailed
    } else if !p.make_current_ok {
        Error::MakeCurrentFailed
    } else {
        Error::CapabilityDetectionFailed
    }
}

/// Everything `GLContext::make_current` promises about one call: the
/// relation between the backend state before (`pre`) and after (`post`),
/// and the result `r`. Stated as its own relation so that laws about
/// consecutive calls can chain it.
pub open spec fn make_current_behavior<B: Backend>(
    pre: &B,
    post: &B,
    ctx: &GLContext,
    r: Result<(), Error>,
) -> bool {
    &&& post.inv()
    &&& post.policy() == pre.policy()
    &&& post.connections() == pre.connections()
    &&& post.surfaces() == pre.surfaces()
    &&& post.contexts() == pre.contexts()
    &&& post.configs() == pre.configs()
    &&& post.namespaces() == pre.namespaces()
    &&& post.handle_headroom() == pre.handle_headroom()
    &&& (r is Ok <==> (pre.current() == ctx.spec_context_handle()
        || pre.policy().make_current_ok))
    &&& (r is Ok ==> post.current() == ctx.spec_context_handle())
    &&& (match r {
        Ok(u) => u == (),
        Err(e) => e == Error::MakeCurrentFailed && post.current() == pre.current(),
    })
    &&& (pre.current() == ctx.spec_context_handle() ==> *post == *pre)
}

impl GLContext {
    /// The native context handle.
    pub closed spec fn spec_context_handle(&self) -> u64 {
        self.native_context
    }

    /// The connection the context was created against.
    pub closed spec fn spec_connection_handle(&self) -> u64 {
        self.native_display
    }

    /// The off-screen drawable the context owns.
    pub closed spec fn spec_surface_handle(&self) -> u64 {
        self.native_drawable
    }

    /// The requested attribute set.
    pub closed spec fn spec_attributes(&self) -> GLContextAttributes {
        self.attributes
    }

    /// The capability snapshot taken at construction.
    pub closed spec fn spec_capabilities(&self) -> GLContextCapabilities {
        self.capabilities
    }

    /// Whether the context's three native handles are all live on `b`.
    pub open spec fn valid<B: Backend>(&self, b: &B) -> bool {
        &&& b.connections().contains(self.spec_connection_handle())
        &&& b.surfaces().contains(self.spec_surface_handle())
        &&& b.contexts().contains(self.spec_context_handle())
    }

    /// The native context handle.
    pub fn context_handle(&self) -> (r: u64)
        ensures
            r == self.spec_context_handle(),
    {
        self.native_context
    }

    /// The connection the context was created against.
    pub fn connection_handle(&self) -> (r: u64)
        ensures
            r == self.spec_connection_handle(),
    {
        self.native_display
    }

    /// The off-screen drawable the context owns.
    pub fn surface_handle(&self) -> (r: u64)
        ensures
            r == self.spec_surface_handle(),
    {
        self.native_drawable
    }

    /// Creates a context against an already-negotiated format and an
    /// already-allocated drawable, optionally sharing an object namespace
    /// with `share_context`; makes the new context current and takes its
    /// capability snapshot.
    ///
    /// Ownership of `drawable` transfers to the call: on success the
    /// returned context owns it, and on failure it is destroyed here, so
    /// the caller never has to (and never may) release it. On failure
    /// every native handle acquired by the call itself has been released
    /// as well: the backend holds exactly the connections, surfaces and
    /// contexts it held before, minus the consumed drawable.
    pub fn new<B: Backend>(
        backend: &mut B,
        share_context: Option<&GLContext>,
        display: u64,
        drawable: u64,
        framebuffer_config: u64,
        attributes: Option<GLContextAttributes>,
    ) -> (r: Result<GLContext, Error>)
        requires
            old(backend).inv(),
            old(backend).connections().contains(display),
            old(backend).surfaces().contains(drawable),
            old(backend).configs().contains(framebuffer_config),
            match share_context {
                Some(s) => old(backend).contexts().contains(s.spec_context_handle()),
                None => true,
            },
        ensures
            final(backend).inv(),
            final(backend).policy() == old(backend).policy(),
            final(backend).connections() == old(backend).connections(),
            final(backend).configs() == old(backend).configs(),
            r is Ok <==> context_new_ok(old(backend)),
            match r {
                Ok(ctx) => {
                    &&& ctx.spec_connection_handle() == display
                    &&& ctx.spec_surface_handle() == drawable
                    &&& ctx.spec_context_handle() != 0
                    &&& !old(backend).contexts().contains(ctx.spec_context_handle())
                    &&& final(backend).contexts() == old(backend).contexts().insert(
                        ctx.spec_context_handle(),
                    )
                    &&& final(backend).surfaces() == old(backend).surfaces()
                    &&& final(backend).current() == ctx.spec_context_handle()
                    &&& ctx.valid(final(backend))
                    &&& ctx.spec_capabilities() == old(backend).policy().capabilities
                    &&& ctx.spec_attributes() == (match attributes {
                        Some(a) => a,
                        None => GLContextAttributes::spec_any(),
                    })
                    &&& final(backend).namespaces().dom() == old(backend).namespaces().dom().insert(ctx.spec_context_handle())
                    &&& (forall|c: u64|
                        #[trigger] old(backend).namespaces().dom().contains(c) && c
                            != ctx.spec_context_handle() ==> final(backend).namespaces()[c] == old(backend).namespaces()[c])
                    &&& (match share_context {
                        Some(s) => final(backend).namespaces()[ctx.spec_context_handle()] == old(backend).namespaces()[s.spec_context_handle()],
                        None => forall|c: u64|
                            #[trigger] old(backend).namespaces().dom().contains(c) ==> final(backend).namespaces()[ctx.spec_context_handle()] != old(backend).namespaces()[c],
                    })
                },
                Err(e) => {
                    &&& e == context_new_error(old(backend))
                    &&& final(backend).surfaces() == old(backend).surfaces().remove(drawable)
                    &&& final(backend).contexts() == old(backend).contexts()
                    &&& final(backend).namespaces() == old(backend).namespaces()
                    &&& (final(backend).current() == old(backend).current() || final(backend).current() == 0)
                },
            },
    {
        let shared: u64 = match share_context {
            Some(ctx) => ctx.context_handle(),
            None => 0,
        };
        proof {
            old(backend).inv_facts();
        }
        let native = match backend.create_context(display, framebuffer_config, shared) {
            Ok(h) => h,
            Err(_e) => {
                backend.destroy_surface(display, drawable);
                return Err(Error::ContextCreationFailed);
            },
        };
        let bound = backend.make_current(display, drawable, native);
        if !bound {
            backend.destroy_context(display, native);
            backend.destroy_surface(display, drawable);
            proof {
                assert(final(backend).contexts() =~= old(backend).contexts());
                assert(final(backend).namespaces() =~= old(backend).namespaces());
            }
            return Err(Error::MakeCurrentFailed);
        }
        let caps = match backend.detect_capabilities() {
            Ok(c) => c,
            Err(_e) => {
                backend.destroy_context(display, native);
                backend.destroy_surface(display, drawable);
                proof {
                    assert(final(backend).contexts() =~= old(backend).contexts());
                    assert(final(backend).namespaces() =~= old(backend).namespaces());
                }
                return Err(Error::CapabilityDetectionFailed);
            },
        };
        Ok(
            GLContext {
                native_context: native,
                native_display: display,
                native_drawable: drawable,
                attributes: match attributes {
                    Some(a) => a,
                    None => GLContextAttributes::any(),
                },
                capabilities: caps,
            },
        )
    }

    /// Creates a headless context of `size` from nothing: opens a
    /// connection, negotiates the default format, allocates an off-screen
    /// drawable, and runs the `new` sequence with no share context. This
    /// is the primary way to obtain a context with no visible window.
    ///
    /// On failure, every native handle the call acquired has been released
    /// again: the backend holds exactly the connections, surfaces and
    /// contexts it held before the call.
    pub fn create_headless<B: Backend>(backend: &mut B, size: Size2D) -> (r: Result<
        GLContext,
        Error,
    >)
        requires
            old(backend).inv(),
        ensures
            final(backend).inv(),
            final(backend).policy() == old(backend).policy(),
            final(backend).configs() == old(backend).configs(),
            r is Ok <==> create_headless_ok(old(backend), size),
            match r {
                Ok(ctx) => {
                    &&& ctx.valid(final(backend))
                    &&& ctx.spec_context_handle() != 0
                    &&& !old(backend).connections().contains(ctx.spec_connection_handle())
                    &&& !old(backend).surfaces().contains(ctx.spec_surface_handle())
                    &&& !old(backend).contexts().contains(ctx.spec_context_handle())
                    &&& final(backend).connections() == old(backend).connections().insert(
                        ctx.spec_connection_handle(),
                    )
                    &&& final(backend).surfaces() == old(backend).surfaces().insert(
                        ctx.spec_surface_handle(),
                    )
                    &&& final(backend).contexts() == old(backend).contexts().insert(
                        ctx.spec_context_handle(),
                    )
                    &&& final(backend).current() == ctx.spec_context_handle()
                    &&& ctx.spec_capabilities() == old(backend).policy().capabilities
                    &&& ctx.spec_attributes() == GLContextAttributes::spec_any()
                    &&& final(backend).namespaces().dom() == old(backend).namespaces().dom().insert(ctx.spec_context_handle())
                    &&& (forall|c: u64|
                        #[trigger] old(backend).namespaces().dom().contains(c) ==> final(backend).namespaces()[c] == old(backend).namespaces()[c] && final(backend).namespaces()[ctx.spec_context_handle()] != old(backend).namespaces()[c])
                },
                Err(e) => {
                    &&& e == create_headless_error(old(backend), size)
                    &&& final(backend).connections() == old(backend).connections()
                    &&& final(backend).surfaces() == old(backend).surfaces()
                    &&& final(backend).contexts() == old(backend).contexts()
                    &&& final(backend).namespaces() == old(backend).namespaces()
                    &&& (final(backend).current() == old(backend).current() || final(backend).current() == 0)
                },
            },
    {
        let conn = match backend.open_connection() {
            Ok(c) => c,
            Err(e) => {
                return Err(e);
            },
        };
        let attrs = GLContextAttributes::any();
        let config = match backend.choose_config(conn, &attrs) {
            Ok(c) => c,
            Err(e) => {
                backend.close_connection(conn);
                proof {
                    assert(final(backend).connections() =~= old(backend).connections());
                }
                return Err(e);
            },
        };
        let surface = match backend.create_offscreen_surface(conn, config, size) {
            Ok(s) => s,
            Err(e) => {
                backend.close_connection(conn);
                proof {
                    assert(final(backend).connections() =~= old(backend).connections());
                }
                return Err(e);
            },
        };
        match GLContext::new(backend, None, conn, surface, config, None) {
            Ok(ctx) => {
                proof {
                    old(backend).inv_facts();
                    assert(final(backend).surfaces() =~= old(backend).surfaces().insert(
                        ctx.spec_surface_handle(),
                    ));
                    assert forall|c: u64| #[trigger]
                        old(backend).namespaces().dom().contains(c) implies final(backend).namespaces()[c] == old(backend).namespaces()[c] by {
                        assert(c != ctx.spec_context_handle());
                    }
                }
                Ok(ctx)
            },
            Err(e) => {
                backend.close_connection(conn);
                proof {
                    assert(final(backend).connections() =~= old(backend).connections());
                    assert(final(backend).surfaces() =~= old(backend).surfaces());
                }
                Err(e)
            },
        }
    }

    /// Makes this context current on its drawable.
    ///
    /// Idempotent: when this context is already bound to the thread the
    /// call succeeds at once, performs no native bind, and leaves the
    /// backend exactly as it was. Otherwise the backend's bind entry point
    /// runs, and its failure is reported as `MakeCurrentFailed`.
    pub fn make_current<B: Backend>(&self, backend: &mut B) -> (r: Result<(), Error>)
        requires
            old(backend).inv(),
            self.valid(old(backend)),
        ensures
            make_current_behavior(old(backend), final(backend), self, r),
    {
        let cur = backend.get_current_context();
        if cur == self.native_context {
            Ok(())
        } else if backend.make_current(
            self.native_display,
            self.native_drawable,
            self.native_context,
        ) {
            Ok(())
        } else {
            Err(Error::MakeCurrentFailed)
        }
    }

    /// Destroys the context and then its drawable, in that fixed order.
    ///
    /// The context is first made current once more, since a backend may
    /// need current-ness to release context-owned resources. If that final
    /// bind fails, teardown still proceeds — both handles are released
    /// either way — and the failure is reported in the result instead of
    /// aborting, so a caller can log it. The connection is not closed: it
    /// is long-lived and may serve other contexts.
    pub fn destroy<B: Backend>(self, backend: &mut B) -> (r: Result<(), Error>)
        requires
            old(backend).inv(),
            self.valid(old(backend)),
        ensures
            final(backend).inv(),
            final(backend).policy() == old(backend).policy(),
            final(backend).connections() == old(backend).connections(),
            final(backend).configs() == old(backend).configs(),
            final(backend).contexts() == old(backend).contexts().remove(
                self.spec_context_handle(),
            ),
            final(backend).surfaces() == old(backend).surfaces().remove(
                self.spec_surface_handle(),
            ),
            final(backend).namespaces() == old(backend).namespaces().remove(
                self.spec_context_handle(),
            ),
            r is Ok <==> (old(backend).current() == self.spec_context_handle() || old(backend).policy().make_current_ok),
            final(backend).current() == (if old(backend).current() == self.spec_context_handle()
                || old(backend).policy().make_current_ok {
                0u64
            } else {
                old(backend).current()
            }),
            final(backend).current() != self.spec_context_handle(),
            match r {
                Ok(u) => u == (),
                Err(e) => e == Error::MakeCurrentFailed,
            },
    {
        proof {
            old(backend).inv_facts();
        }
        let r = self.make_current(backend);
        backend.destroy_context(self.native_display, self.native_context);
        backend.destroy_surface(self.native_display, self.native_drawable);
        r
    }
}

} // verus!
