//! Error kinds of the context lifecycle.

use vstd::prelude::*;

verus! {

/// Every backend failure surfaces as one of these kinds, so that a caller
/// receives a typed, recoverable error and may retry with different
/// attributes or sizes.
#[derive(Clone, Copy, Debug, PartialEq, Eq, Structural)]
pub enum Error {
    /// The platform display or adapter could not be acquired.
    ConnectionUnavailable,
    /// No backend pixel format satisfies the requested attributes.
    ConfigurationUnsupported,
    /// The native allocation of an off-screen drawable failed, which
    /// includes a requested width or height below one pixel.
    AllocationFailed,
    /// The backend's context-creation entry point failed.
    ContextCreationFailed,
    /// The backend refused to bind the context and drawable to the thread.
    MakeCurrentFailed,
    /// The implementation limits could not be queried from a bound context.
    CapabilityDetectionFailed,
}

impl Error {
    /// A short description of the failure, for reporting.
    pub fn description(&self) -> (r: &'static str)
        ensures
            r@ == match self {
                Error::ConnectionUnavailable => "could not acquire the platform display"@,
                Error::ConfigurationUnsupported => "no pixel format satisfies the requested attributes"@,
                Error::AllocationFailed => "could not allocate the off-screen drawable"@,
                Error::ContextCreationFailed => "could not create the native context"@,
                Error::MakeCurrentFailed => "could not make the context current"@,
                Error::CapabilityDetectionFailed => "could not query the implementation limits"@,
            },
    {
        match self {
            Error::ConnectionUnavailable => "could not acquire the platform display",
            Error::ConfigurationUnsupported => "no pixel format satisfies the requested attributes",
            Error::AllocationFailed => "could not allocate the off-screen drawable",
            Error::ContextCreationFailed => "could not create the native context",
            Error::MakeCurrentFailed => "could not make the context current",
            Error::CapabilityDetectionFailed => "could not query the implementation limits",
        }
    }
}

} // verus!
