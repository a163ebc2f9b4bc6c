use vstd::prelude::*;

verus! {

/// Marker for error values a constructor may fail with: any owned,
/// thread-safe error qualifies. The runtime carries such causes
/// behind `DiError::FactoryError` as their rendered message.
pub trait AnyError: Send + Sync {

}

impl<T: Send + Sync> AnyError for T {

}

/// The error taxonomy of the resolution engine.
///
/// Every failure mode of registration and resolution is a typed value
/// returned up the call chain; the engine never panics on an expected
/// failure. The `String` payloads carry the instance name of the
/// service key involved.
#[derive(Debug)]
pub enum DiError {
    /// No registration matches the requested (type, name) key.
    ServiceNotFound(String),
    /// A registration for the same (type, name) key already exists,
    /// in whichever lifecycle category.
    ServiceAlreadyRegistered(String),
    /// The requested type identity is already being resolved in the
    /// same resolution chain.
    CircularDependency(String),
    /// A constructor's own failure, carried as its message.
    FactoryError(String),
    /// The type tag recorded in a holder does not match the tag the
    /// caller asked for; indicates a registration or key-derivation
    /// bug, surfaced instead of trusted blindly.
    TypeMismatch,
    /// Resolution was attempted with no active unit-of-work context.
    NoActiveScope,
    /// An instance lock was left in a broken state by a prior failure.
    LockPoisoned,
}

} // verus!
