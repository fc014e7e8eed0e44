//! The backend interface: the operations a platform graphics subsystem must
//! offer so that the context lifecycle can be built on it.

use vstd::prelude::*;

use crate::attributes::GLContextAttributes;
use crate::capabilities::GLContextCapabilities;
use crate::errors::Error;
use crate::geometry::Size2D;

verus! {

/// What a backend can do, fixed when the backend is brought up: which
/// operations succeed, which framebuffer features exist, and which
/// capability snapshot a bound context reports.
///
/// Success and failure of every backend operation are functions of this
/// record and of the operation's arguments, so a caller can read off a
/// contract exactly when an operation is owed success.
#[derive(Clone, Copy, Debug, PartialEq, Eq, Structural)]
pub struct BackendPolicy {
    /// The platform display or adapter can be acquired.
    pub connection_available: bool,
    /// Multisampled pixel formats exist; a request with `antialias` set is
    /// refused where this is false, never silently downgraded.
    pub supports_antialias: bool,
    /// Native allocation of off-screen drawables succeeds (for sizes of at
    /// least one pixel in each dimension).
    pub surface_allocation_ok: bool,
    /// The context-creation entry point succeeds.
    pub context_creation_ok: bool,
    /// Binding a live context and drawable to the thread succeeds.
    pub make_current_ok: bool,
    /// Querying implementation limits from a bound context succeeds.
    pub detect_ok: bool,
    /// The capability snapshot every bound context reports.
    pub capabilities: GLContextCapabilities,
}

/// Whether a backend of policy `p` has a pixel format that satisfies `a`
/// exactly.
///
/// Negotiation is strict: the one feature a backend may lack is
/// multisampling, and a request that asks for it is then refused with an
/// error, never answered with a substituted single-sampled format.
pub open spec fn config_supported(p: BackendPolicy, a: GLContextAttributes) -> bool {
    !a.antialias || p.supports_antialias
}

/// Whether binding `(conn, surface, ctx)` to the thread succeeds on a
/// backend in state `b`: the policy must allow it and all three handles
/// must be live. A destroyed or foreign handle makes the bind fail with an
/// explicit error; it never succeeds silently.
pub open spec fn bind_ok<B: Backend>(b: &B, conn: u64, surface: u64, ctx: u64) -> bool {
    &&& b.policy().make_current_ok
    &&& b.connections().contains(conn)
    &&& b.surfaces().contains(surface)
    &&& b.contexts().contains(ctx)
}

/// The native graphics subsystem, as the context lifecycle sees it.
///
/// The model state is: the sets of live connection, drawable and context
/// handles; the set of valid pixel-format handles; which context is current
/// on the (single) thread, 0 for none; and the object namespace each live
/// context belongs to. Handles are opaque `u64` values and 0 is never a
/// live handle.
///
/// `handle_headroom` is how many fresh handles the backend can still mint;
/// every creation consumes one, and an exhausted backend reports failure
/// instead of reusing a live handle.
pub trait Backend: Sized {
    /// The backend's internal well-formedness; established at creation and
    /// preserved by every operation.
    spec fn inv(&self) -> bool;

    /// The fixed behaviour of this backend.
    spec fn policy(&self) -> BackendPolicy;

    /// How many fresh handles the backend can still mint.
    spec fn handle_headroom(&self) -> nat;

    /// The live connection handles.
    spec fn connections(&self) -> Set<u64>;

    /// The live off-screen drawable handles.
    spec fn surfaces(&self) -> Set<u64>;

    /// The live native context handles.
    spec fn contexts(&self) -> Set<u64>;

    /// The valid pixel-format handles. Formats are descriptors owned by the
    /// display, not allocated resources: negotiation does not create them
    /// and they need no teardown.
    spec fn configs(&self) -> Set<u64>;

    /// The context currently bound to the thread, 0 for none.
    spec fn current(&self) -> u64;

    /// The object namespace of each live context. Contexts created in the
    /// same share group map to the same namespace.
    spec fn namespaces(&self) -> Map<u64, u64>;

    /// The format `choose_config` answers a request with, fixed per
    /// attribute set: negotiating the same request twice yields the same
    /// format handle.
    spec fn config_for(&self, a: GLContextAttributes) -> u64;

    /// Facts every well-formed backend state obeys: 0 is never a live
    /// handle, exactly the live contexts have a namespace, and the current
    /// context (when there is one) is live.
    proof fn inv_facts(&self)
        requires
            self.inv(),
        ensures
            !self.connections().contains(0),
            !self.surfaces().contains(0),
            !self.contexts().contains(0),
            self.namespaces().dom() == self.contexts(),
            self.current() == 0 || self.contexts().contains(self.current()),
    ;

    /// Acquires the platform display or adapter.
    fn open_connection(&mut self) -> (r: Result<u64, Error>)
        requires
            old(self).inv(),
        ensures
            final(self).inv(),
            final(self).policy() == old(self).policy(),
            final(self).surfaces() == old(self).surfaces(),
            final(self).contexts() == old(self).contexts(),
            final(self).configs() == old(self).configs(),
            final(self).current() == old(self).current(),
            final(self).namespaces() == old(self).namespaces(),
            forall|a: GLContextAttributes| final(self).config_for(a) == old(self).config_for(a),
            r is Ok <==> (old(self).policy().connection_available && old(self).handle_headroom() >= 1),
            match r {
                Ok(c) => {
                    &&& c != 0
                    &&& !old(self).connections().contains(c)
                    &&& final(self).connections() == old(self).connections().insert(c)
                    &&& final(self).handle_headroom() == old(self).handle_headroom() - 1
                },
                Err(e) => {
                    &&& e == Error::ConnectionUnavailable
                    &&& final(self).connections() == old(self).connections()
                    &&& final(self).handle_headroom() == old(self).handle_headroom()
                },
            },
    ;

    /// Releases a connection. The caller must have destroyed every surface
    /// and context derived from it first: a connection outlives what was
    /// created from it.
    fn close_connection(&mut self, conn: u64)
        requires
            old(self).inv(),
            old(self).connections().contains(conn),
        ensures
            final(self).inv(),
            final(self).policy() == old(self).policy(),
            final(self).connections() == old(self).connections().remove(conn),
            final(self).surfaces() == old(self).surfaces(),
            final(self).contexts() == old(self).contexts(),
            final(self).configs() == old(self).configs(),
            final(self).current() == old(self).current(),
            final(self).namespaces() == old(self).namespaces(),
            forall|a: GLContextAttributes| final(self).config_for(a) == old(self).config_for(a),
            final(self).handle_headroom() >= old(self).handle_headroom(),
    ;

    /// Negotiates the backend format that satisfies `attrs` exactly.
    /// Succeeds if and only if such a format exists; an unsupported request
    /// is refused, never silently substituted.
    fn choose_config(&self, conn: u64, attrs: &GLContextAttributes) -> (r: Result<u64, Error>)
        requires
            self.inv(),
            self.connections().contains(conn),
        ensures
            r is Ok <==> config_supported(self.policy(), *attrs),
            match r {
                Ok(c) => c != 0 && self.configs().contains(c) && c == self.config_for(*attrs),
                Err(e) => e == Error::ConfigurationUnsupported,
            },
    ;

    /// Allocates an off-screen drawable of `size` against a negotiated
    /// format. Succeeds if and only if the policy allows allocation, both
    /// dimensions are at least 1, and a fresh handle remains.
    fn create_offscreen_surface(&mut self, conn: u64, config: u64, size: Size2D) -> (r: Result<
        u64,
        Error,
    >)
        requires
            old(self).inv(),
            old(self).connections().contains(conn),
            old(self).configs().contains(config),
        ensures
            final(self).inv(),
            final(self).policy() == old(self).policy(),
            final(self).connections() == old(self).connections(),
            final(self).contexts() == old(self).contexts(),
            final(self).configs() == old(self).configs(),
            final(self).current() == old(self).current(),
            final(self).namespaces() == old(self).namespaces(),
            forall|a: GLContextAttributes| final(self).config_for(a) == old(self).config_for(a),
            r is Ok <==> (old(self).policy().surface_allocation_ok && size.spec_is_positive()
                && old(self).handle_headroom() >= 1),
            match r {
                Ok(s) => {
                    &&& s != 0
                    &&& !old(self).surfaces().contains(s)
                    &&& final(self).surfaces() == old(self).surfaces().insert(s)
                    &&& final(self).handle_headroom() == old(self).handle_headroom() - 1
                },
                Err(e) => {
                    &&& e == Error::AllocationFailed
                    &&& final(self).surfaces() == old(self).surfaces()
                    &&& final(self).handle_headroom() == old(self).handle_headroom()
                },
            },
    ;

    /// Destroys a live drawable. The handle leaves the live set and any
    /// later attempt to bind it fails.
    fn destroy_surface(&mut self, conn: u64, surface: u64)
        requires
            old(self).inv(),
            old(self).connections().contains(conn),
            old(self).surfaces().contains(surface),
        ensures
            final(self).inv(),
            final(self).policy() == old(self).policy(),
            final(self).connections() == old(self).connections(),
            final(self).surfaces() == old(self).surfaces().remove(surface),
            final(self).contexts() == old(self).contexts(),
            final(self).configs() == old(self).configs(),
            final(self).current() == old(self).current(),
            final(self).namespaces() == old(self).namespaces(),
            forall|a: GLContextAttributes| final(self).config_for(a) == old(self).config_for(a),
            final(self).handle_headroom() >= old(self).handle_headroom(),
    ;

    /// Invokes the context-creation entry point against a negotiated
    /// format, sharing an object namespace with `share` when it is a live
    /// context handle, and with a fresh namespace when `share` is 0.
    fn create_context(&mut self, conn: u64, config: u64, share: u64) -> (r: Result<u64, Error>)
        requires
            old(self).inv(),
            old(self).connections().contains(conn),
            old(self).configs().contains(config),
            share == 0 || old(self).contexts().contains(share),
        ensures
            final(self).inv(),
            final(self).policy() == old(self).policy(),
            final(self).connections() == old(self).connections(),
            final(self).surfaces() == old(self).surfaces(),
            final(self).configs() == old(self).configs(),
            final(self).current() == old(self).current(),
            forall|a: GLContextAttributes| final(self).config_for(a) == old(self).config_for(a),
            r is Ok <==> (old(self).policy().context_creation_ok && old(self).handle_headroom()
                >= 1),
            match r {
                Ok(h) => {
                    &&& h != 0
                    &&& !old(self).contexts().contains(h)
                    &&& final(self).contexts() == old(self).contexts().insert(h)
                    &&& final(self).namespaces().dom() == old(self).namespaces().dom().insert(h)
                    &&& forall|c: u64|
                        #[trigger] old(self).namespaces().dom().contains(c) && c != h
                            ==> final(self).namespaces()[c] == old(self).namespaces()[c]
                    &&& (share != 0 ==> final(self).namespaces()[h] == old(self).namespaces()[share])
                    &&& (share == 0 ==> forall|c: u64|
                        #[trigger] old(self).namespaces().dom().contains(c)
                            ==> final(self).namespaces()[h] != old(self).namespaces()[c])
                    &&& final(self).handle_headroom() == old(self).handle_headroom() - 1
                },
                Err(e) => {
                    &&& e == Error::ContextCreationFailed
                    &&& final(self).contexts() == old(self).contexts()
                    &&& final(self).namespaces() == old(self).namespaces()
                    &&& final(self).handle_headroom() == old(self).handle_headroom()
                },
            },
    ;

    /// Destroys a live native context. Its namespace membership ends with
    /// it; the namespace itself lives on in any sharing peer. A destroyed
    /// context is never left current.
    fn destroy_context(&mut self, conn: u64, ctx: u64)
        requires
            old(self).inv(),
            old(self).connections().contains(conn),
            old(self).contexts().contains(ctx),
        ensures
            final(self).inv(),
            final(self).policy() == old(self).policy(),
            final(self).connections() == old(self).connections(),
            final(self).surfaces() == old(self).surfaces(),
            final(self).contexts() == old(self).contexts().remove(ctx),
            final(self).configs() == old(self).configs(),
            final(self).namespaces() == old(self).namespaces().remove(ctx),
            forall|a: GLContextAttributes| final(self).config_for(a) == old(self).config_for(a),
            final(self).current() == (if old(self).current() == ctx {
                0u64
            } else {
                old(self).current()
            }),
            final(self).handle_headroom() >= old(self).handle_headroom(),
    ;

    /// Binds `(surface, ctx)` to the thread. Total over handle values:
    /// returns true and binds exactly when the policy allows it and all
    /// three handles are live, and otherwise reports failure and leaves the
    /// binding as it was.
    fn make_current(&mut self, conn: u64, surface: u64, ctx: u64) -> (r: bool)
        requires
            old(self).inv(),
        ensures
            final(self).inv(),
            final(self).policy() == old(self).policy(),
            final(self).connections() == old(self).connections(),
            final(self).surfaces() == old(self).surfaces(),
            final(self).contexts() == old(self).contexts(),
            final(self).configs() == old(self).configs(),
            final(self).namespaces() == old(self).namespaces(),
            forall|a: GLContextAttributes| final(self).config_for(a) == old(self).config_for(a),
            final(self).handle_headroom() == old(self).handle_headroom(),
            r == (old(self).policy().make_current_ok && old(self).connections().contains(conn)
                && old(self).surfaces().contains(surface) && old(self).contexts().contains(ctx)),
            final(self).current() == (if r {
                ctx
            } else {
                old(self).current()
            }),
    ;

    /// Reads which context is bound to the thread, 0 for none.
    fn get_current_context(&self) -> (r: u64)
        requires
            self.inv(),
        ensures
            r == self.current(),
    ;

    /// Queries the implementation limits of the context bound to the
    /// thread. May only be invoked while some context is current; the
    /// snapshot is a function of the policy alone, so detection is
    /// deterministic.
    fn detect_capabilities(&mut self) -> (r: Result<GLContextCapabilities, Error>)
        requires
            old(self).inv(),
            old(self).current() != 0,
        ensures
            final(self).inv(),
            final(self).policy() == old(self).policy(),
            final(self).connections() == old(self).connections(),
            final(self).surfaces() == old(self).surfaces(),
            final(self).contexts() == old(self).contexts(),
            final(self).configs() == old(self).configs(),
            final(self).current() == old(self).current(),
            final(self).namespaces() == old(self).namespaces(),
            forall|a: GLContextAttributes| final(self).config_for(a) == old(self).config_for(a),
            final(self).handle_headroom() == old(self).handle_headroom(),
            r is Ok <==> old(self).policy().detect_ok,
            match r {
                Ok(c) => c == old(self).policy().capabilities,
                Err(e) => e == Error::CapabilityDetectionFailed,
            },
    ;
}

} // verus!
