use vstd::prelude::*;

use dashmap::DashMap;

use crate::key::ServiceKey;
use crate::model::ScopeModel;
use crate::storage::{
    key_map_clear, key_map_contains, key_map_contents, key_map_entries, key_map_get,
    key_map_insert, key_map_len, key_map_new,
};

verus! {

/// One unit-of-work context: the private cache of scoped instances
/// created for this unit of work, and the stack of type tags whose
/// resolution is currently in flight in it.
///
/// A scope is created at the start of a logical operation and ended at
/// its close; `clear_scoped_instances` hands every cached instance out
/// exactly once so the runtime can run its cleanup logic. The
/// resolution stack lives here — bound to the unit of work, not to a
/// single resolution call — so a cancelled resolution can never leak a
/// stale in-flight marker into an unrelated, later chain.
pub struct DIScope {
    scoped_instances: DashMap<ServiceKey, u64>,
    resolving: Vec<u64>,
}

impl View for DIScope {
    type V = ScopeModel;

    closed spec fn view(&self) -> ScopeModel {
        ScopeModel { cache: key_map_contents(self.scoped_instances), resolving: self.resolving@ }
    }
}

impl DIScope {
    /// A fresh scope: empty cache, no resolution in flight. Creation
    /// always succeeds.
    pub fn new() -> (s: DIScope)
        ensures
            s@ == ScopeModel::empty(),
            s@.wf(),
    {
        let s = DIScope { scoped_instances: key_map_new(), resolving: Vec::new() };
        s
    }

    /// True exactly when the scope's cache holds an instance for
    /// `key`.
    pub fn has_cached(&self, key: &ServiceKey) -> (r: bool)
        ensures
            r == self@.cache.contains_key(key@),
    {
        key_map_contains(&self.scoped_instances, key)
    }

    /// The number of instances this scope has cached.
    pub fn cached_count(&self) -> (r: usize)
        ensures
            r == self@.cache.dom().len(),
    {
        key_map_len(&self.scoped_instances)
    }

    /// True exactly when the type behind `tag` is already being
    /// resolved in this unit of work.
    pub fn in_flight(&self, tag: u64) -> (r: bool)
        ensures
            r == self@.resolving.contains(tag),
    {
        let mut i: usize = 0;
        while i < self.resolving.len()
            invariant
                i <= self.resolving.len(),
                forall|j: int| 0 <= j < i ==> self.resolving@[j] != tag,
            decreases self.resolving.len() - i,
        {
            if self.resolving[i] == tag {
                return true;
            }
            i += 1;
        }
        false
    }

    /// Exits the innermost in-flight resolution, on every exit path —
    /// success, failure, or early return — so a failed resolution
    /// never leaves a stale entry that would wrongly flag a later,
    /// unrelated chain as cyclic. Popping an empty stack is a no-op.
    pub fn exit_resolution(&mut self)
        ensures
            final(self)@.resolving == old(self)@.popped(),
            final(self)@.cache == old(self)@.cache,
            old(self)@.wf() ==> final(self)@.wf(),
    {
        let _ = self.resolving.pop();
        proof {
            assert(self@.resolving =~= old(self)@.popped());
        }
    }

    /// Marks the type behind `tag` as in flight. Internal to the
    /// resolver, which calls it only after checking `in_flight`.
    pub(crate) fn enter_resolution(&mut self, tag: u64)
        ensures
            final(self)@.resolving == old(self)@.resolving.push(tag),
            final(self)@.cache == old(self)@.cache,
    {
        self.resolving.push(tag);
    }

    /// The cached instance for `key`, if this scope holds one.
    pub(crate) fn cache_lookup(&self, key: &ServiceKey) -> (r: Option<u64>)
        ensures
            r == if self@.cache.contains_key(key@) {
                Some(self@.cache[key@])
            } else {
                None::<u64>
            },
    {
        key_map_get(&self.scoped_instances, key)
    }

    /// Stores a constructed scoped instance for `key`.
    pub(crate) fn cache_insert(&mut self, key: ServiceKey, id: u64)
        ensures
            final(self)@.cache == old(self)@.cache.insert(key@, id),
            final(self)@.resolving == old(self)@.resolving,
    {
        key_map_insert(&mut self.scoped_instances, key, id);
    }

    /// Ends the scope's unit of work: empties the scoped-instance
    /// cache and hands every cached instance out, exactly once, so the
    /// caller can run each instance's cleanup logic. This is the only
    /// place instance teardown is guaranteed to run.
    ///
    /// The returned pairs cover the old cache exactly: every pair was
    /// in it, every key of it is listed, and no key is listed twice
    /// (their order is not specified).
    pub fn clear_scoped_instances(&mut self) -> (drained: Vec<(ServiceKey, u64)>)
        ensures
            final(self)@.cache =~= Map::<(u64, Seq<char>), u64>::empty(),
            final(self)@.resolving == old(self)@.resolving,
            old(self)@.wf() ==> final(self)@.wf(),
            drained@.len() == old(self)@.cache.dom().len(),
            forall|i: int|
                0 <= i < drained@.len() ==> old(self)@.cache.contains_pair(
                    (#[trigger] drained@[i].0)@,
                    drained@[i].1,
                ),
            forall|k: (u64, Seq<char>)|
                old(self)@.cache.contains_key(k) ==> exists|i: int|
                    0 <= i < drained@.len() && (#[trigger] drained@[i].0)@ == k,
            forall|i: int, j: int|
                0 <= i < j < drained@.len() ==> (#[trigger] drained@[i].0)@ != (
                #[trigger] drained@[j].0)@,
    {
        let drained = key_map_entries(&self.scoped_instances);
        key_map_clear(&mut self.scoped_instances);
        drained
    }
}

} // verus!
