//! A software backend: a complete, verified implementation of the backend
//! interface that performs no GPU work.
//!
//! It keeps exact books on every native handle it hands out, so a test can
//! hold the lifecycle to its word: counts of live connections, drawables and
//! contexts, the object namespace of each context, and counters of how often
//! the thread binding and the capability query were actually exercised. Its
//! behaviour is driven by a [`BackendPolicy`] chosen at construction, so a
//! failure of any single step can be injected and the cleanup observed.

use std::collections::HashMap;
use std::collections::HashSet;

use vstd::prelude::*;

use crate::attributes::GLContextAttributes;
use crate::backend::Backend;
use crate::backend::BackendPolicy;
use crate::capabilities::GLContextCapabilities;
use crate::errors::Error;
use crate::geometry::Size2D;

verus! {

broadcast use vstd::std_specs::hash::group_hash_axioms;

/// The software backend's state: live handle sets, the namespace of each
/// context, the object ids minted under each namespace, the thread's
/// current context, and a monotone handle counter that guarantees
/// freshness.
pub struct SoftwareBackend {
    conns: HashSet<u64>,
    surfs: HashSet<u64>,
    ctxs: HashSet<u64>,
    ns_map: HashMap<u64, u64>,
    objs: HashMap<u64, u64>,
    cur: u64,
    next_handle: u64,
    policy_data: BackendPolicy,
    bind_calls: u64,
    detect_calls: u64,
}

impl SoftwareBackend {
    /// The policy a plain `new` backend runs under: every operation
    /// succeeds, and, as befits a software rasterizer, there is no
    /// multisampling.
    pub open spec fn spec_default_policy() -> BackendPolicy {
        BackendPolicy {
            connection_available: true,
            supports_antialias: false,
            surface_allocation_ok: true,
            context_creation_ok: true,
            make_current_ok: true,
            detect_ok: true,
            capabilities: GLContextCapabilities { max_texture_size: 4096, max_samples: 0 },
        }
    }

    /// The object ids the backend has minted, each mapped to the namespace
    /// it was minted under.
    pub closed spec fn objects(&self) -> Map<u64, u64> {
        self.objs@
    }

    /// How many times the backend's bind entry point has run.
    pub closed spec fn spec_bind_calls(&self) -> u64 {
        self.bind_calls
    }

    /// How many times the backend's capability query has run.
    pub closed spec fn spec_detect_calls(&self) -> u64 {
        self.detect_calls
    }

    /// How many times the backend's bind entry point has run.
    pub fn bind_count(&self) -> (r: u64)
        ensures
            r == self.spec_bind_calls(),
    {
        self.bind_calls
    }

    /// How many times the backend's capability query has run.
    pub fn detect_count(&self) -> (r: u64)
        ensures
            r == self.spec_detect_calls(),
    {
        self.detect_calls
    }

    pub fn default_policy() -> (r: BackendPolicy)
        ensures
            r == Self::spec_default_policy(),
    {
        BackendPolicy {
            connection_available: true,
            supports_antialias: false,
            surface_allocation_ok: true,
            context_creation_ok: true,
            make_current_ok: true,
            detect_ok: true,
            capabilities: GLContextCapabilities { max_texture_size: 4096, max_samples: 0 },
        }
    }

    /// A backend whose operations behave as `policy` directs.
    pub fn with_policy(policy: BackendPolicy) -> (r: SoftwareBackend)
        ensures
            r.inv(),
            r.policy() == policy,
            r.connections() == Set::<u64>::empty(),
            r.surfaces() == Set::<u64>::empty(),
            r.contexts() == Set::<u64>::empty(),
            r.namespaces() == Map::<u64, u64>::empty(),
            r.objects() == Map::<u64, u64>::empty(),
            r.current() == 0,
            r.handle_headroom() == (u64::MAX - 1) as nat,
            r.spec_bind_calls() == 0,
            r.spec_detect_calls() == 0,
    {
        let r = SoftwareBackend {
            conns: HashSet::new(),
            surfs: HashSet::new(),
            ctxs: HashSet::new(),
            ns_map: HashMap::new(),
            objs: HashMap::new(),
            cur: 0,
            next_handle: 1,
            policy_data: policy,
            bind_calls: 0,
            detect_calls: 0,
        };
        proof {
            assert(r.ns_map@.dom() =~= r.ctxs@);
        }
        r
    }

    /// A backend under the default policy.
    pub fn new() -> (r: SoftwareBackend)
        ensures
            r.inv(),
            r.policy() == Self::spec_default_policy(),
            r.connections() == Set::<u64>::empty(),
            r.surfaces() == Set::<u64>::empty(),
            r.contexts() == Set::<u64>::empty(),
            r.namespaces() == Map::<u64, u64>::empty(),
            r.objects() == Map::<u64, u64>::empty(),
            r.current() == 0,
            r.handle_headroom() == (u64::MAX - 1) as nat,
            r.spec_bind_calls() == 0,
            r.spec_detect_calls() == 0,
    {
        let p = Self::default_policy();
        Self::with_policy(p)
    }

    /// Changes the policy the backend runs under, leaving every live
    /// resource as it is. This is how a test injects the failure of one
    /// lifecycle step after others already succeeded.
    pub fn set_policy(&mut self, policy: BackendPolicy)
        requires
            old(self).inv(),
        ensures
            final(self).inv(),
            final(self).policy() == policy,
            final(self).connections() == old(self).connections(),
            final(self).surfaces() == old(self).surfaces(),
            final(self).contexts() == old(self).contexts(),
            final(self).namespaces() == old(self).namespaces(),
            final(self).objects() == old(self).objects(),
            final(self).current() == old(self).current(),
            final(self).handle_headroom() == old(self).handle_headroom(),
            final(self).spec_bind_calls() == old(self).spec_bind_calls(),
            final(self).spec_detect_calls() == old(self).spec_detect_calls(),
    {
        self.policy_data = policy;
    }

    /// The next fresh handle; the counter is monotone, so a handle never
    /// denotes two resources over the backend's lifetime.
    fn alloc_handle(&mut self) -> (h: u64)
        requires
            old(self).next_handle < u64::MAX,
        ensures
            h == old(self).next_handle,
            final(self).next_handle == old(self).next_handle + 1,
            final(self).conns == old(self).conns,
            final(self).surfs == old(self).surfs,
            final(self).ctxs == old(self).ctxs,
            final(self).ns_map == old(self).ns_map,
            final(self).objs == old(self).objs,
            final(self).cur == old(self).cur,
            final(self).policy_data == old(self).policy_data,
            final(self).bind_calls == old(self).bind_calls,
            final(self).detect_calls == old(self).detect_calls,
    {
        let h = self.next_handle;
        self.next_handle = self.next_handle + 1;
        h
    }

    /// Mints an object id in the namespace of the live context `ctx`,
    /// modelling names (textures, buffers) generated under a bound context.
    pub fn gen_object(&mut self, ctx: u64) -> (r: u64)
        requires
            old(self).inv(),
            old(self).contexts().contains(ctx),
            old(self).handle_headroom() >= 1,
        ensures
            final(self).inv(),
            r != 0,
            !old(self).objects().dom().contains(r),
            final(self).objects() == old(self).objects().insert(r, old(self).namespaces()[ctx]),
            final(self).policy() == old(self).policy(),
            final(self).connections() == old(self).connections(),
            final(self).surfaces() == old(self).surfaces(),
            final(self).contexts() == old(self).contexts(),
            final(self).namespaces() == old(self).namespaces(),
            final(self).current() == old(self).current(),
            final(self).handle_headroom() == old(self).handle_headroom() - 1,
    {
        let ns: u64 = match self.ns_map.get(&ctx) {
            Some(v) => *v,
            None => {
                proof {
                    assert(false);
                }
                0
            },
        };
        let h = self.alloc_handle();
        self.objs.insert(h, ns);
        h
    }

    /// Whether the object id `obj` denotes an object visible to the live
    /// context `ctx`: it must have been minted under `ctx`'s namespace.
    pub fn is_object_valid(&self, ctx: u64, obj: u64) -> (r: bool)
        requires
            self.inv(),
            self.contexts().contains(ctx),
        ensures
            r == (self.objects().dom().contains(obj) && self.objects()[obj]
                == self.namespaces()[ctx]),
    {
        let ns: u64 = match self.ns_map.get(&ctx) {
            Some(v) => *v,
            None => {
                proof {
                    assert(false);
                }
                0
            },
        };
        match self.objs.get(&obj) {
            Some(v) => *v == ns,
            None => false,
        }
    }

    /// The number of live connections.
    pub fn live_connections(&self) -> (r: usize)
        ensures
            r == self.connections().len(),
    {
        self.conns.len()
    }

    /// The number of live off-screen drawables.
    pub fn live_surfaces(&self) -> (r: usize)
        ensures
            r == self.surfaces().len(),
    {
        self.surfs.len()
    }

    /// The number of live native contexts.
    pub fn live_contexts(&self) -> (r: usize)
        ensures
            r == self.contexts().len(),
    {
        self.ctxs.len()
    }
}

impl Backend for SoftwareBackend {
    closed spec fn inv(&self) -> bool {
        &&& 1 <= self.next_handle
        &&& forall|h: u64| #[trigger] self.conns@.contains(h) ==> 0 < h < self.next_handle
        &&& forall|h: u64| #[trigger] self.surfs@.contains(h) ==> 0 < h < self.next_handle
        &&& forall|h: u64| #[trigger] self.ctxs@.contains(h) ==> 0 < h < self.next_handle
        &&& self.ns_map@.dom() == self.ctxs@
        &&& forall|c: u64| #[trigger] self.ns_map@.dom().contains(c) ==> 0 < self.ns_map@[c]
            < self.next_handle
        &&& forall|o: u64| #[trigger] self.objs@.dom().contains(o) ==> (0 < o < self.next_handle
            && 0 < self.objs@[o] < self.next_handle)
        &&& (self.cur == 0 || self.ctxs@.contains(self.cur))
    }

    closed spec fn policy(&self) -> BackendPolicy {
        self.policy_data
    }

    closed spec fn handle_headroom(&self) -> nat {
        (u64::MAX - self.next_handle) as nat
    }

    closed spec fn connections(&self) -> Set<u64> {
        self.conns@
    }

    closed spec fn surfaces(&self) -> Set<u64> {
        self.surfs@
    }

    closed spec fn contexts(&self) -> Set<u64> {
        self.ctxs@
    }

    closed spec fn configs(&self) -> Set<u64> {
        Set::new(|h: u64| 1 <= h <= 64)
    }

    closed spec fn current(&self) -> u64 {
        self.cur
    }

    closed spec fn namespaces(&self) -> Map<u64, u64> {
        self.ns_map@
    }

    closed spec fn config_for(&self, a: GLContextAttributes) -> u64 {
        (1 + (if a.alpha {
            1int
        } else {
            0int
        }) + (if a.depth {
            2int
        } else {
            0int
        }) + (if a.stencil {
            4int
        } else {
            0int
        }) + (if a.antialias {
            8int
        } else {
            0int
        }) + (if a.premultiplied_alpha {
            16int
        } else {
            0int
        }) + (if a.preserve_drawing_buffer {
            32int
        } else {
            0int
        })) as u64
    }

    proof fn inv_facts(&self) {
    }

    fn open_connection(&mut self) -> (r: Result<u64, Error>) {
        if self.policy_data.connection_available && self.next_handle < u64::MAX {
            let h = self.alloc_handle();
            self.conns.insert(h);
            Ok(h)
        } else {
            Err(Error::ConnectionUnavailable)
        }
    }

    fn close_connection(&mut self, conn: u64) {
        self.conns.remove(&conn);
    }

    fn choose_config(&self, conn: u64, attrs: &GLContextAttributes) -> (r: Result<u64, Error>) {
        if attrs.antialias && !self.policy_data.supports_antialias {
            Err(Error::ConfigurationUnsupported)
        } else {
            let mut h: u64 = 1;
            if attrs.alpha {
                h = h + 1;
            }
            if attrs.depth {
                h = h + 2;
            }
            if attrs.stencil {
                h = h + 4;
            }
            if attrs.antialias {
                h = h + 8;
            }
            if attrs.premultiplied_alpha {
                h = h + 16;
            }
            if attrs.preserve_drawing_buffer {
                h = h + 32;
            }
            proof {
                assert(self.configs().contains(h));
            }
            Ok(h)
        }
    }

    fn create_offscreen_surface(&mut self, conn: u64, config: u64, size: Size2D) -> (r: Result<
        u64,
        Error,
    >) {
        if self.policy_data.surface_allocation_ok && size.is_positive() && self.next_handle
            < u64::MAX {
            let h = self.alloc_handle();
            self.surfs.insert(h);
            Ok(h)
        } else {
            Err(Error::AllocationFailed)
        }
    }

    fn destroy_surface(&mut self, conn: u64, surface: u64) {
        self.surfs.remove(&surface);
    }

    fn create_context(&mut self, conn: u64, config: u64, share: u64) -> (r: Result<u64, Error>) {
        if self.policy_data.context_creation_ok && self.next_handle < u64::MAX {
            let shared_ns: u64 = if share != 0 {
                match self.ns_map.get(&share) {
                    Some(v) => *v,
                    None => {
                        proof {
                            assert(false);
                        }
                        0
                    },
                }
            } else {
                0
            };
            let h = self.alloc_handle();
            let ns: u64 = if share != 0 {
                shared_ns
            } else {
                h
            };
            self.ctxs.insert(h);
            self.ns_map.insert(h, ns);
            proof {
                assert(self.ns_map@.dom() =~= self.ctxs@);
            }
            Ok(h)
        } else {
            Err(Error::ContextCreationFailed)
        }
    }

    fn destroy_context(&mut self, conn: u64, ctx: u64) {
        self.ctxs.remove(&ctx);
        self.ns_map.remove(&ctx);
        if self.cur == ctx {
            self.cur = 0;
        }
        proof {
            assert(self.ns_map@.dom() =~= self.ctxs@);
        }
    }

    fn make_current(&mut self, conn: u64, surface: u64, ctx: u64) -> (r: bool) {
        if self.bind_calls < u64::MAX {
            self.bind_calls = self.bind_calls + 1;
        }
        let ok = self.policy_data.make_current_ok && self.conns.contains(&conn)
            && self.surfs.contains(&surface) && self.ctxs.contains(&ctx);
        if ok {
            self.cur = ctx;
        }
        ok
    }

    fn get_current_context(&self) -> (r: u64) {
        self.cur
    }

    fn detect_capabilities(&mut self) -> (r: Result<GLContextCapabilities, Error>) {
        if self.detect_calls < u64::MAX {
            self.detect_calls = self.detect_calls + 1;
        }
        if self.policy_data.detect_ok {
            Ok(self.policy_data.capabilities)
        } else {
            Err(Error::CapabilityDetectionFailed)
        }
    }
}

} // verus!
