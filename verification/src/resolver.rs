use vstd::prelude::*;

use crate::Lifecycle;
use crate::container::DiContainer;
use crate::errors::DiError;
use crate::holder::Holder;
use crate::key::ServiceKey;
use crate::model::Lookup;
use crate::model::lookup;
use crate::scope::DIScope;

verus! {

/// What a begun resolution asks of the runtime that drives the
/// engine.
///
/// Constructors are asynchronous and may recursively resolve further
/// dependencies, so the engine cannot run them itself: it hands the
/// constructor's identity back and the runtime drives the round trip —
/// run the constructor, then `resolve_commit` its instance (or
/// `DIScope::exit_resolution` if it failed).
#[derive(Debug, Clone, Copy)]
pub enum ResolveAction {
    /// A cache already held the instance; resolution is complete and
    /// the in-flight stack was never touched.
    Ready(Holder),
    /// `key` is registered under this lifecycle with this constructor;
    /// the runtime must run it and hand the instance back. The type's
    /// tag stays marked in flight until the commit or exit.
    Construct(Lifecycle, u64),
}

impl DiContainer {
    /// Begins resolving `key` in `scope`: the cycle check, then the
    /// fixed-precedence lookup — the scope's own cache, the scoped
    /// registry, the singleton cache, the singleton registry, the
    /// transient registry; first match wins.
    ///
    /// Fails with `CircularDependency` when `key`'s type is already
    /// being resolved in this unit of work, and with `ServiceNotFound`
    /// when nothing matches; neither failure changes any state, so no
    /// partial state is ever created on an error path. On a
    /// `Construct` outcome the type's tag is pushed on the scope's
    /// in-flight stack; on every other outcome the scope is left
    /// exactly as it was.
    pub fn resolve_begin(&self, scope: &mut DIScope, key: &ServiceKey) -> (r: Result<
        ResolveAction,
        DiError,
    >)
        ensures
            final(scope)@.cache == old(scope)@.cache,
            old(scope)@.wf() ==> final(scope)@.wf(),
            if old(scope)@.resolving.contains(key.tag) {
                &&& r matches Err(DiError::CircularDependency(n)) && n@ == key.name@
                &&& final(scope)@ == old(scope)@
            } else {
                match lookup(self@, old(scope)@, key@) {
                    Lookup::CachedScoped(id) => {
                        &&& r matches Ok(a) && a matches ResolveAction::Ready(h) && h == (Holder {
                            tag: key.tag,
                            id,
                        })
                        &&& final(scope)@ == old(scope)@
                    },
                    Lookup::CachedSingleton(id) => {
                        &&& r matches Ok(a) && a matches ResolveAction::Ready(h) && h == (Holder {
                            tag: key.tag,
                            id,
                        })
                        &&& final(scope)@ == old(scope)@
                    },
                    Lookup::ConstructScoped(ctor) => {
                        &&& r matches Ok(a) && a matches ResolveAction::Construct(lc, c) && lc
                            == Lifecycle::Scoped && c == ctor
                        &&& final(scope)@.resolving == old(scope)@.resolving.push(key.tag)
                    },
                    Lookup::ConstructSingleton(ctor) => {
                        &&& r matches Ok(a) && a matches ResolveAction::Construct(lc, c) && lc
                            == Lifecycle::Singleton && c == ctor
                        &&& final(scope)@.resolving == old(scope)@.resolving.push(key.tag)
                    },
                    Lookup::ConstructTransient(ctor) => {
                        &&& r matches Ok(a) && a matches ResolveAction::Construct(lc, c) && lc
                            == Lifecycle::Transient && c == ctor
                        &&& final(scope)@.resolving == old(scope)@.resolving.push(key.tag)
                    },
                    Lookup::Missing => {
                        &&& r matches Err(DiError::ServiceNotFound(n)) && n@ == key.name@
                        &&& final(scope)@ == old(scope)@
                    },
                }
            },
    {
        if scope.in_flight(key.tag) {
            return Err(DiError::CircularDependency(key.name.clone()));
        }
        if let Some(id) = scope.cache_lookup(key) {
            return Ok(ResolveAction::Ready(Holder { tag: key.tag, id }));
        }
        if let Some(ctor) = self.ctor_lookup(Lifecycle::Scoped, key) {
            scope.enter_resolution(key.tag);
            proof {
                lemma_push_fresh_no_duplicates(old(scope)@.resolving, key.tag);
            }
            return Ok(ResolveAction::Construct(Lifecycle::Scoped, ctor));
        }
        if let Some(id) = self.singleton_cache_lookup(key) {
            return Ok(ResolveAction::Ready(Holder { tag: key.tag, id }));
        }
        if let Some(ctor) = self.ctor_lookup(Lifecycle::Singleton, key) {
            scope.enter_resolution(key.tag);
            proof {
                lemma_push_fresh_no_duplicates(old(scope)@.resolving, key.tag);
            }
            return Ok(ResolveAction::Construct(Lifecycle::Singleton, ctor));
        }
        if let Some(ctor) = self.ctor_lookup(Lifecycle::Transient, key) {
            scope.enter_resolution(key.tag);
            proof {
                lemma_push_fresh_no_duplicates(old(scope)@.resolving, key.tag);
            }
            return Ok(ResolveAction::Construct(Lifecycle::Transient, ctor));
        }
        Err(DiError::ServiceNotFound(key.name.clone()))
    }

    /// Commits the instance a constructor produced for `key` under
    /// `lifecycle`, and unconditionally exits the innermost in-flight
    /// resolution.
    ///
    /// A scoped instance enters the scope's cache, a singleton
    /// instance the process-wide singleton cache — in both cases
    /// insert-if-absent: when a racing resolution already filled the
    /// cache, the cached instance wins, the new one is discarded, and
    /// every caller gets the one retained holder. A transient instance
    /// is returned uncached.
    pub fn resolve_commit(
        &mut self,
        scope: &mut DIScope,
        key: &ServiceKey,
        lifecycle: Lifecycle,
        instance: u64,
    ) -> (h: Holder)
        requires
            old(self)@.wf(),
            lifecycle == Lifecycle::Singleton ==> old(self)@.singleton_ctors.contains_key(key@),
            lifecycle == Lifecycle::Scoped ==> old(self)@.scoped_ctors.contains_key(key@),
        ensures
            final(self)@.wf(),
            h.tag == key.tag,
            final(scope)@.resolving == old(scope)@.popped(),
            old(scope)@.wf() ==> final(scope)@.wf(),
            final(self)@.singleton_ctors == old(self)@.singleton_ctors,
            final(self)@.scoped_ctors == old(self)@.scoped_ctors,
            final(self)@.transient_ctors == old(self)@.transient_ctors,
            old(scope)@.consistent_with(old(self)@) ==> final(scope)@.consistent_with(
                final(self)@,
            ),
            match lifecycle {
                Lifecycle::Transient => {
                    &&& h.id == instance
                    &&& final(self)@ == old(self)@
                    &&& final(scope)@.cache == old(scope)@.cache
                },
                Lifecycle::Scoped => {
                    &&& final(self)@ == old(self)@
                    &&& if old(scope)@.cache.contains_key(key@) {
                        &&& h.id == old(scope)@.cache[key@]
                        &&& final(scope)@.cache == old(scope)@.cache
                    } else {
                        &&& h.id == instance
                        &&& final(scope)@.cache == old(scope)@.cache.insert(key@, instance)
                    }
                },
                Lifecycle::Singleton => {
                    &&& final(scope)@.cache == old(scope)@.cache
                    &&& if old(self)@.singleton_cache.contains_key(key@) {
                        &&& h.id == old(self)@.singleton_cache[key@]
                        &&& final(self)@ == old(self)@
                    } else {
                        &&& h.id == instance
                        &&& final(self)@ == old(self)@.cache_singleton(key@, instance)
                    }
                },
            },
    {
        let h = match lifecycle {
            Lifecycle::Transient => Holder { tag: key.tag, id: instance },
            Lifecycle::Scoped => {
                if let Some(existing) = scope.cache_lookup(key) {
                    Holder { tag: key.tag, id: existing }
                } else {
                    scope.cache_insert(key.dup(), instance);
                    Holder { tag: key.tag, id: instance }
                }
            },
            Lifecycle::Singleton => {
                if let Some(existing) = self.singleton_cache_lookup(key) {
                    Holder { tag: key.tag, id: existing }
                } else {
                    self.singleton_cache_insert(key.dup(), instance);
                    Holder { tag: key.tag, id: instance }
                }
            },
        };
        scope.exit_resolution();
        h
    }
}

/// Pushing a tag that is not on the stack keeps the stack free of
/// duplicates.
proof fn lemma_push_fresh_no_duplicates(s: Seq<u64>, tag: u64)
    requires
        !s.contains(tag),
    ensures
        s.no_duplicates() ==> s.push(tag).no_duplicates(),
{
    if s.no_duplicates() {
        let p = s.push(tag);
        assert forall|i: int, j: int| 0 <= i < p.len() && 0 <= j < p.len() && i != j implies p[i]
            != p[j] by {
            if i < s.len() && j < s.len() {
            } else if i == s.len() {
                assert(p[j] == s[j]);
                assert(!s.contains(tag));
            } else if j == s.len() {
                assert(p[i] == s[i]);
                assert(!s.contains(tag));
            }
        }
    }
}

} // verus!
