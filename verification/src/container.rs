use vstd::prelude::*;

use dashmap::DashMap;

use crate::Lifecycle;
use crate::errors::DiError;
use crate::key::ServiceKey;
use crate::model::ContainerModel;
use crate::storage::{
    key_map_clear, key_map_contains, key_map_contents, key_map_get, key_map_insert, key_map_new,
};

verus! {

/// The process-wide state of the engine: three per-lifecycle
/// registries from service key to constructor identity, and the
/// singleton cache from service key to instance identity, each held in
/// a concurrent map so the read-heavy resolution path never blocks on
/// a lock.
///
/// The embedding runtime owns the constructors themselves (they are
/// asynchronous); the engine refers to a constructor by the identity
/// the runtime assigned when it was registered.
pub struct DiContainer {
    singleton_ctors: DashMap<ServiceKey, u64>,
    scoped_ctors: DashMap<ServiceKey, u64>,
    transient_ctors: DashMap<ServiceKey, u64>,
    singleton_cache: DashMap<ServiceKey, u64>,
}

impl View for DiContainer {
    type V = ContainerModel;

    closed spec fn view(&self) -> ContainerModel {
        ContainerModel {
            singleton_ctors: key_map_contents(self.singleton_ctors),
            scoped_ctors: key_map_contents(self.scoped_ctors),
            transient_ctors: key_map_contents(self.transient_ctors),
            singleton_cache: key_map_contents(self.singleton_cache),
        }
    }
}

impl DiContainer {
    /// A container with no registrations and an empty singleton cache.
    pub fn new() -> (c: DiContainer)
        ensures
            c@ == ContainerModel::empty(),
            c@.wf(),
    {
        let c = DiContainer {
            singleton_ctors: key_map_new(),
            scoped_ctors: key_map_new(),
            transient_ctors: key_map_new(),
            singleton_cache: key_map_new(),
        };
        c
    }

    /// Installs `ctor` as the constructor for `key` under `lifecycle`.
    ///
    /// Fails with `ServiceAlreadyRegistered` — leaving every map
    /// untouched — exactly when `key` is already registered, in this
    /// or any other lifecycle category; this keeps each key in at most
    /// one category. Readers of the registry see either the state
    /// before or the state after the installation, never a partial
    /// one.
    pub fn register(&mut self, lifecycle: Lifecycle, key: &ServiceKey, ctor: u64) -> (r: Result<
        (),
        DiError,
    >)
        requires
            old(self)@.wf(),
        ensures
            final(self)@.wf(),
            final(self)@.singleton_cache == old(self)@.singleton_cache,
            if old(self)@.registered_anywhere(key@) {
                &&& r matches Err(DiError::ServiceAlreadyRegistered(n)) && n@ == key.name@
                &&& final(self)@ == old(self)@
            } else {
                &&& r is Ok
                &&& final(self)@ == old(self)@.register(lifecycle, key@, ctor)
            },
    {
        if key_map_contains(&self.singleton_ctors, key) || key_map_contains(
            &self.scoped_ctors,
            key,
        ) || key_map_contains(&self.transient_ctors, key) {
            return Err(DiError::ServiceAlreadyRegistered(key.name.clone()));
        }
        match lifecycle {
            Lifecycle::Singleton => key_map_insert(&mut self.singleton_ctors, key.dup(), ctor),
            Lifecycle::Scoped => key_map_insert(&mut self.scoped_ctors, key.dup(), ctor),
            Lifecycle::Transient => key_map_insert(&mut self.transient_ctors, key.dup(), ctor),
        }
        Ok(())
    }

    /// Registers the unnamed transient constructor for the type
    /// behind `tag`: a fresh instance is constructed on every
    /// resolution.
    pub fn register_transient(&mut self, tag: u64, ctor: u64) -> (r: Result<(), DiError>)
        requires
            old(self)@.wf(),
        ensures
            final(self)@.wf(),
            if old(self)@.registered_anywhere((tag, Seq::<char>::empty())) {
                &&& r matches Err(DiError::ServiceAlreadyRegistered(n)) && n@ == Seq::<
                    char,
                >::empty()
                &&& final(self)@ == old(self)@
            } else {
                &&& r is Ok
                &&& final(self)@ == old(self)@.register(
                    Lifecycle::Transient,
                    (tag, Seq::<char>::empty()),
                    ctor,
                )
            },
    {
        let key = ServiceKey::unnamed(tag);
        self.register(Lifecycle::Transient, &key, ctor)
    }

    /// Registers a named transient constructor for the type behind
    /// `tag`.
    pub fn register_transient_name(&mut self, tag: u64, name: &str, ctor: u64) -> (r: Result<
        (),
        DiError,
    >)
        requires
            old(self)@.wf(),
        ensures
            final(self)@.wf(),
            if old(self)@.registered_anywhere((tag, name@)) {
                &&& r matches Err(DiError::ServiceAlreadyRegistered(n)) && n@ == name@
                &&& final(self)@ == old(self)@
            } else {
                &&& r is Ok
                &&& final(self)@ == old(self)@.register(Lifecycle::Transient, (tag, name@), ctor)
            },
    {
        let key = ServiceKey::new(tag, name.to_owned());
        self.register(Lifecycle::Transient, &key, ctor)
    }

    /// Registers the unnamed scoped constructor for the type behind
    /// `tag`: one instance per unit-of-work scope.
    pub fn register_scope(&mut self, tag: u64, ctor: u64) -> (r: Result<(), DiError>)
        requires
            old(self)@.wf(),
        ensures
            final(self)@.wf(),
            if old(self)@.registered_anywhere((tag, Seq::<char>::empty())) {
                &&& r matches Err(DiError::ServiceAlreadyRegistered(n)) && n@ == Seq::<
                    char,
                >::empty()
                &&& final(self)@ == old(self)@
            } else {
                &&& r is Ok
                &&& final(self)@ == old(self)@.register(
                    Lifecycle::Scoped,
                    (tag, Seq::<char>::empty()),
                    ctor,
                )
            },
    {
        let key = ServiceKey::unnamed(tag);
        self.register(Lifecycle::Scoped, &key, ctor)
    }

    /// Registers a named scoped constructor for the type behind
    /// `tag`.
    pub fn register_scope_name(&mut self, tag: u64, name: &str, ctor: u64) -> (r: Result<
        (),
        DiError,
    >)
        requires
            old(self)@.wf(),
        ensures
            final(self)@.wf(),
            if old(self)@.registered_anywhere((tag, name@)) {
                &&& r matches Err(DiError::ServiceAlreadyRegistered(n)) && n@ == name@
                &&& final(self)@ == old(self)@
            } else {
                &&& r is Ok
                &&& final(self)@ == old(self)@.register(Lifecycle::Scoped, (tag, name@), ctor)
            },
    {
        let key = ServiceKey::new(tag, name.to_owned());
        self.register(Lifecycle::Scoped, &key, ctor)
    }

    /// Registers the unnamed singleton constructor for the type
    /// behind `tag`: one instance for the life of the process,
    /// constructed on first demand.
    pub fn register_singleton(&mut self, tag: u64, ctor: u64) -> (r: Result<(), DiError>)
        requires
            old(self)@.wf(),
        ensures
            final(self)@.wf(),
            if old(self)@.registered_anywhere((tag, Seq::<char>::empty())) {
                &&& r matches Err(DiError::ServiceAlreadyRegistered(n)) && n@ == Seq::<
                    char,
                >::empty()
                &&& final(self)@ == old(self)@
            } else {
                &&& r is Ok
                &&& final(self)@ == old(self)@.register(
                    Lifecycle::Singleton,
                    (tag, Seq::<char>::empty()),
                    ctor,
                )
            },
    {
        let key = ServiceKey::unnamed(tag);
        self.register(Lifecycle::Singleton, &key, ctor)
    }

    /// Registers a named singleton constructor for the type behind
    /// `tag`.
    pub fn register_singleton_name(&mut self, tag: u64, name: &str, ctor: u64) -> (r: Result<
        (),
        DiError,
    >)
        requires
            old(self)@.wf(),
        ensures
            final(self)@.wf(),
            if old(self)@.registered_anywhere((tag, name@)) {
                &&& r matches Err(DiError::ServiceAlreadyRegistered(n)) && n@ == name@
                &&& final(self)@ == old(self)@
            } else {
                &&& r is Ok
                &&& final(self)@ == old(self)@.register(Lifecycle::Singleton, (tag, name@), ctor)
            },
    {
        let key = ServiceKey::new(tag, name.to_owned());
        self.register(Lifecycle::Singleton, &key, ctor)
    }

    /// True exactly when `key` is registered under `lifecycle`.
    pub fn is_registered(&self, lifecycle: Lifecycle, key: &ServiceKey) -> (r: bool)
        ensures
            r == self@.registry_of(lifecycle).contains_key(key@),
    {
        match lifecycle {
            Lifecycle::Singleton => key_map_contains(&self.singleton_ctors, key),
            Lifecycle::Scoped => key_map_contains(&self.scoped_ctors, key),
            Lifecycle::Transient => key_map_contains(&self.transient_ctors, key),
        }
    }

    /// True exactly when `key` is registered in some lifecycle
    /// category.
    pub fn has_registration(&self, key: &ServiceKey) -> (r: bool)
        ensures
            r == self@.registered_anywhere(key@),
    {
        key_map_contains(&self.singleton_ctors, key) || key_map_contains(&self.scoped_ctors, key)
            || key_map_contains(&self.transient_ctors, key)
    }

    /// True exactly when the singleton cache already holds an instance
    /// for `key`.
    pub fn has_singleton_instance(&self, key: &ServiceKey) -> (r: bool)
        ensures
            r == self@.singleton_cache.contains_key(key@),
    {
        key_map_contains(&self.singleton_cache, key)
    }

    /// The constructor registered for `key` under `lifecycle`, if
    /// any. Internal to the resolver.
    pub(crate) fn ctor_lookup(&self, lifecycle: Lifecycle, key: &ServiceKey) -> (r: Option<u64>)
        ensures
            r == if self@.registry_of(lifecycle).contains_key(key@) {
                Some(self@.registry_of(lifecycle)[key@])
            } else {
                None::<u64>
            },
    {
        match lifecycle {
            Lifecycle::Singleton => key_map_get(&self.singleton_ctors, key),
            Lifecycle::Scoped => key_map_get(&self.scoped_ctors, key),
            Lifecycle::Transient => key_map_get(&self.transient_ctors, key),
        }
    }

    /// The cached singleton instance for `key`, if one exists.
    /// Internal to the resolver.
    pub(crate) fn singleton_cache_lookup(&self, key: &ServiceKey) -> (r: Option<u64>)
        ensures
            r == if self@.singleton_cache.contains_key(key@) {
                Some(self@.singleton_cache[key@])
            } else {
                None::<u64>
            },
    {
        key_map_get(&self.singleton_cache, key)
    }

    /// Stores a constructed singleton instance for `key`. Internal to
    /// the resolver.
    pub(crate) fn singleton_cache_insert(&mut self, key: ServiceKey, id: u64)
        ensures
            final(self)@ == old(self)@.cache_singleton(key@, id),
    {
        key_map_insert(&mut self.singleton_cache, key, id);
    }

    /// The test-only full-state reset: clears all three registries and
    /// the singleton cache, for isolated test runs. Outside tests the
    /// container's state lives for the whole process.
    pub fn reset(&mut self)
        ensures
            final(self)@ == ContainerModel::empty(),
            final(self)@.wf(),
    {
        key_map_clear(&mut self.singleton_ctors);
        key_map_clear(&mut self.scoped_ctors);
        key_map_clear(&mut self.transient_ctors);
        key_map_clear(&mut self.singleton_cache);
    }
}

} // verus!
