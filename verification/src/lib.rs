//! Verified lifecycle management for headless GPU rendering contexts.
//!
//! The library models the native graphics subsystem behind the [`backend::Backend`]
//! interface and proves that the context/surface lifecycle around it is sound:
//! creation is sequenced as connection, pixel-format negotiation, drawable,
//! native context, make-current, capability query; a construction failure at any
//! step releases every native handle already acquired; and teardown follows the
//! fixed order context before surface.

pub mod attributes;
pub mod backend;
pub mod capabilities;
pub mod context;
pub mod errors;
pub mod geometry;
pub mod laws;
pub mod software;
