use offscreen_context::attributes::GLContextAttributes;
use offscreen_context::backend::Backend;
use offscreen_context::context::GLContext;
use offscreen_context::errors::Error;
use offscreen_context::geometry::Size2D;
use offscreen_context::software::SoftwareBackend;

#[test]
fn shared_namespace_round_trip() {
    let mut b = SoftwareBackend::new();
    let conn = b.open_connection().unwrap();
    let attrs = GLContextAttributes::any();
    let config = b.choose_config(conn, &attrs).unwrap();
    let s1 = b
        .create_offscreen_surface(conn, config, Size2D::new(16, 16))
        .unwrap();
    let ctx1 = GLContext::new(&mut b, None, conn, s1, config, None).unwrap();
    // an object id generated under the first context's namespace
    let obj = b.gen_object(ctx1.context_handle());
    assert!(b.is_object_valid(ctx1.context_handle(), obj));
    // a context sharing ctx1's namespace still sees the object
    let s2 = b
        .create_offscreen_surface(conn, config, Size2D::new(16, 16))
        .unwrap();
    let ctx2 = GLContext::new(&mut b, Some(&ctx1), conn, s2, config, None).unwrap();
    assert!(b.is_object_valid(ctx2.context_handle(), obj));
    // a context with a fresh namespace does not
    let s3 = b
        .create_offscreen_surface(conn, config, Size2D::new(16, 16))
        .unwrap();
    let ctx3 = GLContext::new(&mut b, None, conn, s3, config, None).unwrap();
    assert!(!b.is_object_valid(ctx3.context_handle(), obj));
}

#[test]
fn sharing_is_transitive_through_peer() {
    let mut b = SoftwareBackend::new();
    let conn = b.open_connection().unwrap();
    let attrs = GLContextAttributes::any();
    let config = b.choose_config(conn, &attrs).unwrap();
    let s1 = b
        .create_offscreen_surface(conn, config, Size2D::new(4, 4))
        .unwrap();
    let ctx1 = GLContext::new(&mut b, None, conn, s1, config, None).unwrap();
    let s2 = b
        .create_offscreen_surface(conn, config, Size2D::new(4, 4))
        .unwrap();
    let ctx2 = GLContext::new(&mut b, Some(&ctx1), conn, s2, config, None).unwrap();
    // an object minted under the sharing peer is visible to the original
    let obj = b.gen_object(ctx2.context_handle());
    assert!(b.is_object_valid(ctx1.context_handle(), obj));
}

#[test]
fn antialias_refused_by_software_backend() {
    let mut b = SoftwareBackend::new();
    let conn = b.open_connection().unwrap();
    let mut attrs = GLContextAttributes::any();
    attrs.antialias = true;
    let r = b.choose_config(conn, &attrs);
    assert!(matches!(r, Err(Error::ConfigurationUnsupported)));
}

#[test]
fn negotiation_is_deterministic() {
    let mut b = SoftwareBackend::new();
    let conn = b.open_connection().unwrap();
    let attrs = GLContextAttributes::any();
    let c1 = b.choose_config(conn, &attrs).unwrap();
    let c2 = b.choose_config(conn, &attrs).unwrap();
    assert_eq!(c1, c2);
    let mut other = GLContextAttributes::any();
    other.stencil = true;
    let c3 = b.choose_config(conn, &other).unwrap();
    assert_ne!(c1, c3);
}

#[test]
fn requested_attributes_recorded() {
    let mut b = SoftwareBackend::new();
    let conn = b.open_connection().unwrap();
    let mut attrs = GLContextAttributes::any();
    attrs.stencil = true;
    attrs.preserve_drawing_buffer = true;
    let config = b.choose_config(conn, &attrs).unwrap();
    let s = b
        .create_offscreen_surface(conn, config, Size2D::new(2, 2))
        .unwrap();
    let ctx = GLContext::new(&mut b, None, conn, s, config, Some(attrs)).unwrap();
    assert_eq!(ctx.attributes, attrs);
    let s2 = b
        .create_offscreen_surface(conn, config, Size2D::new(2, 2))
        .unwrap();
    let ctx2 = GLContext::new(&mut b, None, conn, s2, config, None).unwrap();
    assert_eq!(ctx2.attributes, GLContextAttributes::any());
}

#[test]
fn attributes_any_defaults() {
    let a = GLContextAttributes::any();
    assert!(a.alpha);
    assert!(a.depth);
    assert!(!a.stencil);
    assert!(!a.antialias);
    assert!(!a.premultiplied_alpha);
    assert!(!a.preserve_drawing_buffer);
}

#[test]
fn failed_new_destroys_orphaned_surface() {
    let mut b = SoftwareBackend::new();
    let conn = b.open_connection().unwrap();
    let attrs = GLContextAttributes::any();
    let config = b.choose_config(conn, &attrs).unwrap();
    let s = b
        .create_offscreen_surface(conn, config, Size2D::new(2, 2))
        .unwrap();
    assert_eq!(b.live_surfaces(), 1);
    let mut policy = SoftwareBackend::default_policy();
    policy.context_creation_ok = false;
    b.set_policy(policy);
    let r = GLContext::new(&mut b, None, conn, s, config, None);
    assert!(matches!(r, Err(Error::ContextCreationFailed)));
    // the surface the call consumed is gone; nothing else changed
    assert_eq!(b.live_surfaces(), 0);
    assert_eq!(b.live_contexts(), 0);
    assert_eq!(b.live_connections(), 1);
}

#[test]
fn size_helpers() {
    let s = Size2D::new(5, 7);
    assert_eq!(s.width, 5);
    assert_eq!(s.height, 7);
    assert!(s.is_positive());
    assert!(!Size2D::new(0, 7).is_positive());
    assert!(!Size2D::new(5, -1).is_positive());
}
