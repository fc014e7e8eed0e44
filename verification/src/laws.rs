//! The laws of the lifecycle, stated and proved over the same spec
//! functions the executable contracts use.

use vstd::prelude::*;

use crate::attributes::GLContextAttributes;
use crate::backend::Backend;
use crate::backend::BackendPolicy;
use crate::backend::bind_ok;
use crate::backend::config_supported;
use crate::context::GLContext;
use crate::context::create_headless_ok;
use crate::context::make_current_behavior;
use crate::errors::Error;
use crate::geometry::Size2D;
use crate::software::SoftwareBackend;

verus! {

/// Law: on a backend whose policy allows every step, `create_headless`
/// is owed success for every size of at least one pixel each way, as long
/// as three fresh handles remain. Together with the contract of
/// `GLContext::create_headless`, whose result is `Ok` exactly when
/// `create_headless_ok` holds, every such request yields a context.
pub proof fn lemma_create_headless_total<B: Backend>(b: &B, size: Size2D)
    requires
        b.policy().connection_available,
        b.policy().surface_allocation_ok,
        b.policy().context_creation_ok,
        b.policy().make_current_ok,
        b.policy().detect_ok,
        b.handle_headroom() >= 3,
        size.width >= 1,
        size.height >= 1,
    ensures
        create_headless_ok(b, size),
{
}

/// Law: under the software backend's default policy, `create_headless`
/// is owed success for every positive size, and the capability snapshot
/// every resulting context carries reports a sane, nonzero texture-size
/// limit.
pub proof fn lemma_software_headless_capabilities(b: &SoftwareBackend, size: Size2D)
    requires
        b.policy() == SoftwareBackend::spec_default_policy(),
        b.handle_headroom() >= 3,
        size.width >= 1,
        size.height >= 1,
    ensures
        create_headless_ok(b, size),
        b.policy().capabilities.max_texture_size >= 1,
{
}

/// Law: the object namespace round-trips across sharing. An object minted
/// under one context is visible to every context that shares its
/// namespace — in particular, by the contract of `GLContext::new`, to a
/// context created with the minting context as its share peer.
pub proof fn lemma_shared_namespace_round_trip(b: &SoftwareBackend, c1: u64, c2: u64, obj: u64)
    requires
        b.inv(),
        b.contexts().contains(c1),
        b.contexts().contains(c2),
        b.namespaces()[c2] == b.namespaces()[c1],
        b.objects().dom().contains(obj),
        b.objects()[obj] == b.namespaces()[c1],
    ensures
        b.objects().dom().contains(obj) && b.objects()[obj] == b.namespaces()[c2],
{
}

/// Law: destroying a context releases its surface. In any state where the
/// surface handle has left the live set — which the contract of
/// `GLContext::destroy` guarantees — no bind naming that handle can
/// succeed: the attempt is refused with an explicit failure, whatever
/// connection or context it names.
pub proof fn lemma_destroyed_surface_unusable<B: Backend>(
    pre: &B,
    post: &B,
    surface: u64,
    conn: u64,
    ctx: u64,
)
    requires
        post.surfaces() == pre.surfaces().remove(surface),
    ensures
        !post.surfaces().contains(surface),
        !bind_ok(post, conn, surface, ctx),
{
}

/// Law: `make_current` is idempotent. When one call on a context has
/// succeeded, an immediately following call on the same context succeeds
/// too and leaves the backend exactly as it was — in particular it
/// performs no native bind.
pub proof fn lemma_make_current_idempotent<B: Backend>(
    b0: &B,
    b1: &B,
    b2: &B,
    ctx: &GLContext,
    r1: Result<(), Error>,
    r2: Result<(), Error>,
)
    requires
        make_current_behavior(b0, b1, ctx, r1),
        r1 is Ok,
        make_current_behavior(b1, b2, ctx, r2),
    ensures
        r2 is Ok,
        *b2 == *b1,
{
}

/// Law: capability detection is deterministic. The snapshot is a function
/// of the backend policy alone, so contexts constructed against backends
/// of equal policy — and, a fortiori, two reads from one context — carry
/// identical capabilities.
pub proof fn lemma_capability_detection_deterministic<B: Backend>(
    b1: &B,
    b2: &B,
    ctx1: &GLContext,
    ctx2: &GLContext,
)
    requires
        b1.policy() == b2.policy(),
        ctx1.spec_capabilities() == b1.policy().capabilities,
        ctx2.spec_capabilities() == b2.policy().capabilities,
    ensures
        ctx1.spec_capabilities() == ctx2.spec_capabilities(),
{
}

/// Law: a failed construction leaks nothing. The failure contracts of
/// `GLContext::new` and `GLContext::create_headless` restore the live
/// handle sets exactly, and equal sets have equal counts, so a
/// resource-counting backend observes the same live totals before and
/// after any failed construction.
pub proof fn lemma_failed_construction_leak_free<B: Backend>(pre: &B, post: &B)
    requires
        post.connections() == pre.connections(),
        post.surfaces() == pre.surfaces(),
        post.contexts() == pre.contexts(),
    ensures
        post.connections().len() == pre.connections().len(),
        post.surfaces().len() == pre.surfaces().len(),
        post.contexts().len() == pre.contexts().len(),
{
}

/// Law: a request the backend cannot satisfy is refused, never silently
/// substituted. A policy without multisampling supports no antialiased
/// attribute set, so by the contract of `choose_config` such a request is
/// answered with `ConfigurationUnsupported` and nothing else.
pub proof fn lemma_antialias_refused(p: BackendPolicy, a: GLContextAttributes)
    requires
        !p.supports_antialias,
        a.antialias,
    ensures
        !config_supported(p, a),
{
}

} // verus!
