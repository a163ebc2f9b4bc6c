//! A dependency-injection resolution engine.
//!
//! Independent modules register constructors for typed service instances
//! under one of three lifecycle policies (process-lifetime singleton,
//! unit-of-work scoped, per-call transient), and consumers retrieve
//! fully-constructed instances through a resolver that consults the
//! caches and registries in a fixed precedence order, guarded by a
//! cycle detector.
//!
//! Constructors are asynchronous in the embedding runtime, so the
//! engine is written as an explicit state machine: the runtime drives
//! it by beginning a resolution, running the constructor the engine
//! asks for, and committing the constructed instance back.

use vstd::prelude::*;

mod bootstrap;
mod container;
mod errors;
mod holder;
mod key;
pub mod laws;
mod model;
mod resolver;
mod scope;
mod storage;

pub use bootstrap::{Bootstrap, DiConstructor};
pub use container::DiContainer;
pub use errors::{AnyError, DiError};
pub use holder::Holder;
pub use key::ServiceKey;
pub use model::{ContainerModel, Lookup, ScopeModel};
pub use resolver::ResolveAction;
pub use scope::DIScope;

verus! {

/// The three lifecycle policies a service can be registered under.
#[derive(Debug, Clone, Copy, PartialEq, Eq, Structural)]
pub enum Lifecycle {
    Singleton,
    Scoped,
    Transient,
}

/// Marker for values that can live in the engine's storage: any
/// owned, thread-safe value qualifies. The runtime stores such values
/// type-erased behind its holders; the engine itself only ever sees
/// their identities.
pub trait AnyService: Send + Sync {

}

impl<T: Send + Sync> AnyService for T {

}

} // verus!
