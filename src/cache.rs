use vstd::prelude::*;

use crate::error::EngineError;
use crate::instance::{prepared, InstanceView, InstanceWrapper};
use crate::memory::zeros;
use crate::table::{Duplicate, KeyedTable};

verus! {

/// Prepared module instances, keyed by the address of the contract they run, ready to be
/// invoked again without being instantiated anew. Whoever shares it between invocations
/// serializes access to it with one lock.
pub struct InstanceCache {
    entries: KeyedTable<InstanceWrapper>,
}

impl View for InstanceCache {
    type V = Map<Seq<u8>, InstanceView>;

    closed spec fn view(&self) -> Map<Seq<u8>, InstanceView> {
        self.entries@
    }
}

impl InstanceCache {
    /// An empty cache.
    pub fn new() -> (r: InstanceCache)
        ensures
            r@ == Map::<Seq<u8>, InstanceView>::empty(),
    {
        InstanceCache { entries: KeyedTable::new() }
    }

    /// Whether an instance is cached under `key`.
    pub fn contains(&self, key: &[u8]) -> (r: bool)
        ensures
            r == self@.contains_key(key@),
    {
        self.entries.get(key).is_some()
    }

    /// Evicts the instance cached under `key`; returns whether there was one.
    pub fn evict(&mut self, key: &[u8]) -> (r: bool)
        ensures
            r == old(self)@.contains_key(key@),
            final(self)@ == old(self)@.remove(key@),
    {
        self.entries.remove(key)
    }
}

/// Creates the cache that the engine's invocations share.
pub fn instantiate_cache() -> (r: InstanceCache)
    ensures
        r@ == Map::<Seq<u8>, InstanceView>::empty(),
{
    InstanceCache::new()
}

/// A point-in-time copy of the whole cache.
pub fn get_cache(cache: &InstanceCache) -> (r: InstanceCache)
    ensures
        r@ == cache@,
{
    InstanceCache { entries: cache.entries.duplicate() }
}

/// Caches a copy of `instance` under `key`, prepared for reuse, replacing any earlier entry.
pub fn write_to_cache(cache: &mut InstanceCache, key: &[u8], instance: &InstanceWrapper)
    ensures
        final(cache)@ == old(cache)@.insert(key@, prepared(instance@)),
{
    let mut copy = instance.duplicate();
    copy.prep_for_cache();
    cache.entries.insert(key, copy);
}

/// A point-in-time copy of the instance cached under `key`.
pub fn read_cache(cache: &InstanceCache, key: &[u8]) -> (r: Result<InstanceWrapper, EngineError>)
    ensures
        r is Ok <==> cache@.contains_key(key@),
        r is Err ==> r == Err::<InstanceWrapper, EngineError>(EngineError::NotFound),
        r matches Ok(i) ==> i@ == cache@[key@],
{
    match cache.entries.get(key) {
        Some(instance) => Ok(instance.duplicate()),
        None => Err(EngineError::NotFound),
    }
}

/// Writing an instance to the cache and reading the same key back gives the instance with its
/// memory reset to zeros of its initial size, the same whatever the memory held before.
pub proof fn lemma_cache_round_trip(
    cache: Map<Seq<u8>, InstanceView>,
    key: Seq<u8>,
    instance: InstanceView,
    other: InstanceView,
)
    requires
        other == (InstanceView { memory: other.memory, ..instance }),
    ensures
        cache.insert(key, prepared(instance)).contains_key(key),
        cache.insert(key, prepared(instance))[key] == prepared(instance),
        prepared(instance).memory == zeros(instance.memory_initial),
        prepared(other) == prepared(instance),
{
}

} // verus!
