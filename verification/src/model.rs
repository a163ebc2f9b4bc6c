use vstd::prelude::*;

use crate::Lifecycle;

verus! {

/// The mathematical state of the process-wide container: three
/// per-lifecycle registries mapping key views to constructor
/// identities, and the lazily filled singleton cache mapping key views
/// to instance identities.
pub struct ContainerModel {
    pub singleton_ctors: Map<(u64, Seq<char>), u64>,
    pub scoped_ctors: Map<(u64, Seq<char>), u64>,
    pub transient_ctors: Map<(u64, Seq<char>), u64>,
    pub singleton_cache: Map<(u64, Seq<char>), u64>,
}

/// The mathematical state of one unit-of-work scope: its private
/// scoped-instance cache and the stack of type tags whose resolution
/// is in flight in this unit of work.
pub struct ScopeModel {
    pub cache: Map<(u64, Seq<char>), u64>,
    pub resolving: Seq<u64>,
}

impl ContainerModel {
    /// The state of a freshly created container.
    pub open spec fn empty() -> ContainerModel {
        ContainerModel {
            singleton_ctors: Map::empty(),
            scoped_ctors: Map::empty(),
            transient_ctors: Map::empty(),
            singleton_cache: Map::empty(),
        }
    }

    /// Whether `k` is registered in any of the three lifecycle
    /// categories. A key may exist in at most one category at a time,
    /// and registration refuses a key for which this already holds.
    pub open spec fn registered_anywhere(self, k: (u64, Seq<char>)) -> bool {
        ||| self.singleton_ctors.contains_key(k)
        ||| self.scoped_ctors.contains_key(k)
        ||| self.transient_ctors.contains_key(k)
    }

    /// The registry of the given lifecycle category.
    pub open spec fn registry_of(self, lifecycle: Lifecycle) -> Map<(u64, Seq<char>), u64> {
        match lifecycle {
            Lifecycle::Singleton => self.singleton_ctors,
            Lifecycle::Scoped => self.scoped_ctors,
            Lifecycle::Transient => self.transient_ctors,
        }
    }

    /// The container after a successful registration of `ctor` for `k`
    /// under `lifecycle`.
    pub open spec fn register(self, lifecycle: Lifecycle, k: (u64, Seq<char>), ctor: u64) -> ContainerModel {
        match lifecycle {
            Lifecycle::Singleton => ContainerModel {
                singleton_ctors: self.singleton_ctors.insert(k, ctor),
                ..self
            },
            Lifecycle::Scoped => ContainerModel { scoped_ctors: self.scoped_ctors.insert(k, ctor), ..self },
            Lifecycle::Transient => ContainerModel {
                transient_ctors: self.transient_ctors.insert(k, ctor),
                ..self
            },
        }
    }

    /// The container after the constructed singleton instance `id`
    /// entered the cache for `k`.
    pub open spec fn cache_singleton(self, k: (u64, Seq<char>), id: u64) -> ContainerModel {
        ContainerModel { singleton_cache: self.singleton_cache.insert(k, id), ..self }
    }

    /// Well-formedness: every map is finite, the three registries are
    /// pairwise disjoint (a key lives in at most one lifecycle
    /// category), and a cached singleton instance is always backed by a
    /// singleton registration.
    pub open spec fn wf(self) -> bool {
        &&& self.singleton_ctors.dom().finite()
        &&& self.scoped_ctors.dom().finite()
        &&& self.transient_ctors.dom().finite()
        &&& self.singleton_cache.dom().finite()
        &&& self.singleton_ctors.dom().disjoint(self.scoped_ctors.dom())
        &&& self.singleton_ctors.dom().disjoint(self.transient_ctors.dom())
        &&& self.scoped_ctors.dom().disjoint(self.transient_ctors.dom())
        &&& self.singleton_cache.dom().subset_of(self.singleton_ctors.dom())
    }
}

impl ScopeModel {
    /// The state of a freshly created scope: empty cache, nothing in
    /// flight.
    pub open spec fn empty() -> ScopeModel {
        ScopeModel { cache: Map::empty(), resolving: Seq::empty() }
    }

    /// Well-formedness: the cache is finite and no type identity
    /// appears twice on the resolution stack.
    pub open spec fn wf(self) -> bool {
        &&& self.cache.dom().finite()
        &&& self.resolving.no_duplicates()
    }

    /// A scope is consistent with a container when everything its
    /// cache holds is backed by a scoped registration.
    pub open spec fn consistent_with(self, c: ContainerModel) -> bool {
        self.cache.dom().subset_of(c.scoped_ctors.dom())
    }

    /// The stack after the unconditional exit of the innermost
    /// resolution: the top entry is popped; an empty stack stays empty.
    pub open spec fn popped(self) -> Seq<u64> {
        if self.resolving.len() == 0 {
            self.resolving
        } else {
            self.resolving.drop_last()
        }
    }
}

/// What the fixed-precedence lookup of the resolver finds for key `k`:
/// the scope's own cache first, then the scoped registry, then the
/// singleton cache, then the singleton registry, then the transient
/// registry.
pub enum Lookup {
    /// The scope already holds an instance for `k`.
    CachedScoped(u64),
    /// The singleton cache already holds an instance for `k`.
    CachedSingleton(u64),
    /// `k` is registered as scoped; this constructor must run.
    ConstructScoped(u64),
    /// `k` is registered as singleton; this constructor must run.
    ConstructSingleton(u64),
    /// `k` is registered as transient; this constructor must run.
    ConstructTransient(u64),
    /// No cache entry and no registration matches `k`.
    Missing,
}

/// The resolver's lookup, in the order of precedence above; the first
/// match wins.
pub open spec fn lookup(c: ContainerModel, s: ScopeModel, k: (u64, Seq<char>)) -> Lookup {
    if s.cache.contains_key(k) {
        Lookup::CachedScoped(s.cache[k])
    } else if c.scoped_ctors.contains_key(k) {
        Lookup::ConstructScoped(c.scoped_ctors[k])
    } else if c.singleton_cache.contains_key(k) {
        Lookup::CachedSingleton(c.singleton_cache[k])
    } else if c.singleton_ctors.contains_key(k) {
        Lookup::ConstructSingleton(c.singleton_ctors[k])
    } else if c.transient_ctors.contains_key(k) {
        Lookup::ConstructTransient(c.transient_ctors[k])
    } else {
        Lookup::Missing
    }
}

} // verus!
