use offscreen_context::attributes::GLContextAttributes;
use offscreen_context::backend::Backend;
use offscreen_context::context::GLContext;
use offscreen_context::errors::Error;
use offscreen_context::geometry::Size2D;
use offscreen_context::software::SoftwareBackend;

#[test]
fn create_headless_succeeds() {
    let mut b = SoftwareBackend::new();
    let ctx = GLContext::create_headless(&mut b, Size2D::new(256, 256)).unwrap();
    assert!(ctx.capabilities.max_texture_size >= 1);
    assert_eq!(ctx.capabilities.max_texture_size, 4096);
    assert_eq!(ctx.capabilities.max_samples, 0);
    assert_eq!(ctx.attributes, GLContextAttributes::any());
    assert_eq!(b.live_connections(), 1);
    assert_eq!(b.live_surfaces(), 1);
    assert_eq!(b.live_contexts(), 1);
    assert_eq!(b.get_current_context(), ctx.context_handle());
}

#[test]
fn create_headless_one_pixel() {
    let mut b = SoftwareBackend::new();
    let ctx = GLContext::create_headless(&mut b, Size2D::new(1, 1)).unwrap();
    assert!(ctx.capabilities.max_texture_size >= 1);
}

#[test]
fn zero_size_fails_allocation() {
    let mut b = SoftwareBackend::new();
    let r = GLContext::create_headless(&mut b, Size2D::new(0, 64));
    assert!(matches!(r, Err(Error::AllocationFailed)));
    assert_eq!(b.live_connections(), 0);
    assert_eq!(b.live_surfaces(), 0);
    assert_eq!(b.live_contexts(), 0);
}

#[test]
fn negative_size_fails_allocation() {
    let mut b = SoftwareBackend::new();
    let r = GLContext::create_headless(&mut b, Size2D::new(-3, 10));
    assert!(matches!(r, Err(Error::AllocationFailed)));
    assert_eq!(b.live_surfaces(), 0);
}

#[test]
fn connection_unavailable_reported() {
    let mut policy = SoftwareBackend::default_policy();
    policy.connection_available = false;
    let mut b = SoftwareBackend::with_policy(policy);
    let r = GLContext::create_headless(&mut b, Size2D::new(32, 32));
    assert!(matches!(r, Err(Error::ConnectionUnavailable)));
    assert_eq!(b.live_connections(), 0);
}

#[test]
fn context_creation_failure_releases_handles() {
    let mut policy = SoftwareBackend::default_policy();
    policy.context_creation_ok = false;
    let mut b = SoftwareBackend::with_policy(policy);
    let r = GLContext::create_headless(&mut b, Size2D::new(32, 32));
    assert!(matches!(r, Err(Error::ContextCreationFailed)));
    assert_eq!(b.live_connections(), 0);
    assert_eq!(b.live_surfaces(), 0);
    assert_eq!(b.live_contexts(), 0);
}

#[test]
fn make_current_failure_releases_handles() {
    let mut policy = SoftwareBackend::default_policy();
    policy.make_current_ok = false;
    let mut b = SoftwareBackend::with_policy(policy);
    let r = GLContext::create_headless(&mut b, Size2D::new(32, 32));
    assert!(matches!(r, Err(Error::MakeCurrentFailed)));
    assert_eq!(b.live_connections(), 0);
    assert_eq!(b.live_surfaces(), 0);
    assert_eq!(b.live_contexts(), 0);
}

#[test]
fn detection_failure_releases_handles() {
    let mut policy = SoftwareBackend::default_policy();
    policy.detect_ok = false;
    let mut b = SoftwareBackend::with_policy(policy);
    let r = GLContext::create_headless(&mut b, Size2D::new(32, 32));
    assert!(matches!(r, Err(Error::CapabilityDetectionFailed)));
    assert_eq!(b.live_connections(), 0);
    assert_eq!(b.live_surfaces(), 0);
    assert_eq!(b.live_contexts(), 0);
    assert_eq!(b.get_current_context(), 0);
}

#[test]
fn make_current_idempotent() {
    let mut b = SoftwareBackend::new();
    let ctx1 = GLContext::create_headless(&mut b, Size2D::new(8, 8)).unwrap();
    let _ctx2 = GLContext::create_headless(&mut b, Size2D::new(8, 8)).unwrap();
    // ctx2 is current now; rebinding ctx1 takes one native bind
    let binds_before = b.bind_count();
    assert!(ctx1.make_current(&mut b).is_ok());
    let binds_after_first = b.bind_count();
    assert_eq!(binds_after_first, binds_before + 1);
    // already current: success again, and no further native bind
    assert!(ctx1.make_current(&mut b).is_ok());
    assert_eq!(b.bind_count(), binds_after_first);
    assert_eq!(b.get_current_context(), ctx1.context_handle());
}

#[test]
fn capabilities_one_shot() {
    let mut b = SoftwareBackend::new();
    let ctx = GLContext::create_headless(&mut b, Size2D::new(8, 8)).unwrap();
    assert_eq!(b.detect_count(), 1);
    let first = ctx.capabilities;
    let second = ctx.capabilities;
    assert_eq!(first, second);
    assert!(ctx.make_current(&mut b).is_ok());
    // reads and rebinding never re-query the implementation
    assert_eq!(b.detect_count(), 1);
}

#[test]
fn destroy_releases_surface() {
    let mut b = SoftwareBackend::new();
    let ctx = GLContext::create_headless(&mut b, Size2D::new(8, 8)).unwrap();
    let conn = ctx.connection_handle();
    let surface = ctx.surface_handle();
    let handle = ctx.context_handle();
    assert_eq!(b.live_surfaces(), 1);
    assert!(ctx.destroy(&mut b).is_ok());
    assert_eq!(b.live_surfaces(), 0);
    assert_eq!(b.live_contexts(), 0);
    // the long-lived connection stays open
    assert_eq!(b.live_connections(), 1);
    assert_eq!(b.get_current_context(), 0);
    // reusing the released surface handle fails explicitly
    assert!(!b.make_current(conn, surface, handle));
    let ctx2 = GLContext::create_headless(&mut b, Size2D::new(8, 8)).unwrap();
    assert!(!b.make_current(conn, surface, ctx2.context_handle()));
}

#[test]
fn destroy_reports_failed_final_bind() {
    let mut b = SoftwareBackend::new();
    let ctx1 = GLContext::create_headless(&mut b, Size2D::new(8, 8)).unwrap();
    let _ctx2 = GLContext::create_headless(&mut b, Size2D::new(8, 8)).unwrap();
    // ctx2 is current; the final bind of ctx1 during teardown now fails
    let mut policy = SoftwareBackend::default_policy();
    policy.make_current_ok = false;
    b.set_policy(policy);
    let r = ctx1.destroy(&mut b);
    assert!(matches!(r, Err(Error::MakeCurrentFailed)));
    // teardown still released the context and its surface
    assert_eq!(b.live_surfaces(), 1);
    assert_eq!(b.live_contexts(), 1);
}

#[test]
fn error_descriptions() {
    assert_eq!(
        Error::ConnectionUnavailable.description(),
        "could not acquire the platform display"
    );
    assert_eq!(
        Error::ConfigurationUnsupported.description(),
        "no pixel format satisfies the requested attributes"
    );
    assert_eq!(
        Error::AllocationFailed.description(),
        "could not allocate the off-screen drawable"
    );
    assert_eq!(
        Error::ContextCreationFailed.description(),
        "could not create the native context"
    );
    assert_eq!(
        Error::MakeCurrentFailed.description(),
        "could not make the context current"
    );
    assert_eq!(
        Error::CapabilityDetectionFailed.description(),
        "could not query the implementation limits"
    );
}

#[test]
fn failure_reports_first_failing_step() {
    // with both the connection and the allocation doomed, the error names
    // the step that fails first
    let mut policy = SoftwareBackend::default_policy();
    policy.connection_available = false;
    policy.surface_allocation_ok = false;
    let mut b = SoftwareBackend::with_policy(policy);
    let r = GLContext::create_headless(&mut b, Size2D::new(0, 0));
    assert!(matches!(r, Err(Error::ConnectionUnavailable)));
}
