//! The engine's cross-cutting guarantees, stated over the
//! mathematical model of container and scope and proved once for all
//! states: uniqueness of registration, per-lifecycle instance
//! identity, independence of keys, cycle detection, and the absence
//! of partial state on failed resolutions. The exec functions'
//! contracts speak in the same model, so these statements carry over
//! to every run of the engine.

use vstd::prelude::*;

use crate::Lifecycle;
use crate::model::{ContainerModel, Lookup, ScopeModel, lookup};

verus! {

/// Registering a key makes it registered for good, so a second
/// registration of the same (type, name) key — under the same or any
/// other lifecycle category — is refused: `register` fails with
/// `ServiceAlreadyRegistered` exactly on keys for which
/// `registered_anywhere` holds, and it holds for every key that was
/// ever successfully registered.
pub proof fn law_duplicate_registration_refused(
    c: ContainerModel,
    lc: Lifecycle,
    k: (u64, Seq<char>),
    ctor: u64,
)
    ensures
        c.register(lc, k, ctor).registered_anywhere(k),
{
}

/// Singleton identity: while the singleton cache holds an instance
/// for a key, resolution of that key from any scope consistent with
/// the container — the same scope or a different one — finds exactly
/// that cached instance. Repeated singleton resolution therefore
/// yields identical instance identity.
pub proof fn law_singleton_identity(
    c: ContainerModel,
    s1: ScopeModel,
    s2: ScopeModel,
    k: (u64, Seq<char>),
)
    requires
        c.wf(),
        c.singleton_cache.contains_key(k),
        s1.consistent_with(c),
        s2.consistent_with(c),
    ensures
        lookup(c, s1, k) == Lookup::CachedSingleton(c.singleton_cache[k]),
        lookup(c, s2, k) == Lookup::CachedSingleton(c.singleton_cache[k]),
{
    assert(c.singleton_ctors.dom().contains(k));
    assert(!c.scoped_ctors.dom().contains(k));
    assert(!s1.cache.dom().contains(k));
    assert(!s2.cache.dom().contains(k));
}

/// The instance a first singleton construction commits is the one
/// every later resolution finds: after caching `id` for `k`, looking
/// `k` up from any consistent scope yields exactly `id`.
pub proof fn law_singleton_commit_then_lookup(
    c: ContainerModel,
    s: ScopeModel,
    k: (u64, Seq<char>),
    id: u64,
)
    requires
        c.wf(),
        c.singleton_ctors.contains_key(k),
        s.consistent_with(c),
    ensures
        lookup(c.cache_singleton(k, id), s, k) == Lookup::CachedSingleton(id),
{
    assert(!c.scoped_ctors.dom().contains(k));
    assert(!s.cache.dom().contains(k));
}

/// Transient resolution never reuses a prior instance: for a key
/// registered transient, the lookup always demands a fresh
/// construction — no cache is consulted, and the commit of a
/// transient instance fills none — whatever earlier resolutions
/// produced.
pub proof fn law_transient_always_constructs(
    c: ContainerModel,
    s: ScopeModel,
    k: (u64, Seq<char>),
)
    requires
        c.wf(),
        s.consistent_with(c),
        c.transient_ctors.contains_key(k),
    ensures
        lookup(c, s, k) == Lookup::ConstructTransient(c.transient_ctors[k]),
{
    assert(!c.scoped_ctors.dom().contains(k));
    assert(!c.singleton_ctors.dom().contains(k));
    assert(!c.singleton_cache.dom().contains(k));
    assert(!s.cache.dom().contains(k));
}

/// Scoped identity within one scope: while a scope's cache holds an
/// instance for a key, resolving that key in the scope yields exactly
/// that instance.
pub proof fn law_scoped_identity_same_scope(c: ContainerModel, s: ScopeModel, k: (u64, Seq<char>))
    requires
        s.cache.contains_key(k),
    ensures
        lookup(c, s, k) == Lookup::CachedScoped(s.cache[k]),
{
}

/// Scoped instances never cross scopes: a scope whose cache does not
/// hold a scoped-registered key — in particular any freshly created
/// scope, and any scope after `clear_scoped_instances` — is served by
/// a new construction, never by another scope's instance.
pub proof fn law_scoped_fresh_scope_constructs(
    c: ContainerModel,
    s: ScopeModel,
    k: (u64, Seq<char>),
)
    requires
        c.scoped_ctors.contains_key(k),
        !s.cache.contains_key(k),
    ensures
        lookup(c, s, k) == Lookup::ConstructScoped(c.scoped_ctors[k]),
{
}

/// Mutually dependent constructors are reported, not recursed into:
/// after resolving one key demanded a construction (pushing its type
/// tag in flight) and that constructor's resolution of a second key
/// demanded another, the nested attempt to resolve the first key
/// again finds its tag in flight — `resolve_begin` then fails with
/// `CircularDependency` before any lookup, whatever the container
/// holds by then, so the chain ends instead of recursing forever.
pub proof fn law_circular_dependency_detected(s: ScopeModel, ka_tag: u64, kb_tag: u64)
    ensures
        s.resolving.push(ka_tag).push(kb_tag).contains(ka_tag),
{
    let p = s.resolving.push(ka_tag).push(kb_tag);
    assert(p[s.resolving.len() as int] == ka_tag);
}

/// Resolving an unregistered key finds nothing: the lookup misses
/// every cache and registry, so `resolve_begin` reports
/// `ServiceNotFound`, and by its contract leaves container and scope
/// exactly as they were — no partial state is created.
pub proof fn law_unregistered_key_misses(c: ContainerModel, s: ScopeModel, k: (u64, Seq<char>))
    requires
        c.wf(),
        s.consistent_with(c),
        !c.registered_anywhere(k),
    ensures
        lookup(c, s, k) == Lookup::Missing,
{
    assert(!c.singleton_cache.dom().contains(k));
    assert(!s.cache.dom().contains(k));
}

/// Named and unnamed registrations of one type are independent:
/// installing a constructor for one key changes the lookup of every
/// other key, in every scope, not at all.
pub proof fn law_registrations_independent(
    c: ContainerModel,
    s: ScopeModel,
    lc: Lifecycle,
    k1: (u64, Seq<char>),
    k2: (u64, Seq<char>),
    ctor: u64,
)
    requires
        k1 != k2,
    ensures
        lookup(c.register(lc, k1, ctor), s, k2) == lookup(c, s, k2),
{
    let c2 = c.register(lc, k1, ctor);
    assert(c2.scoped_ctors.contains_key(k2) == c.scoped_ctors.contains_key(k2));
    assert(c2.singleton_ctors.contains_key(k2) == c.singleton_ctors.contains_key(k2));
    assert(c2.transient_ctors.contains_key(k2) == c.transient_ctors.contains_key(k2));
    assert(c2.singleton_cache == c.singleton_cache);
    if c2.scoped_ctors.contains_key(k2) {
        assert(c2.scoped_ctors[k2] == c.scoped_ctors[k2]);
    }
    if c2.singleton_ctors.contains_key(k2) {
        assert(c2.singleton_ctors[k2] == c.singleton_ctors[k2]);
    }
    if c2.transient_ctors.contains_key(k2) {
        assert(c2.transient_ctors[k2] == c.transient_ctors[k2]);
    }
}

} // verus!
