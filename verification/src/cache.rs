//! The bounded LRU cache that memoizes median-time lookups.
//!
//! The cache itself comes from the `lru_cache` crate; the contracts below
//! state no more of it than its source shows: a lookup leaves the contents
//! unchanged, and an insertion adds at most the inserted pair, since going
//! over capacity evicts the least recently used pair.

use lru_cache::LruCache;
use vstd::prelude::*;

verus! {

#[verifier::external_type_specification]
#[verifier::external_body]
#[verifier::reject_recursive_types(K)]
#[verifier::reject_recursive_types(V)]
#[verifier::reject_recursive_types(S)]
pub struct ExLruCache<K: Eq + std::hash::Hash, V, S: std::hash::BuildHasher>(LruCache<K, V, S>);

/// What the cache holds, as a map from block number to cached oracle
/// answer.
pub uninterp spec fn cache_contents(c: LruCache<u64, Option<u64>>) -> Map<u64, Option<u64>>;

/// The bound the cache was made with: it never holds more pairs than this.
pub uninterp spec fn cache_bound(c: LruCache<u64, Option<u64>>) -> usize;

/// Relies on `lru_cache::LruCache::new`: creates an empty cache that holds
/// at most `capacity` pairs.
#[verifier::external_body]
pub fn cache_new(capacity: usize) -> (c: LruCache<u64, Option<u64>>)
    ensures
        cache_contents(c).dom() =~= Set::<u64>::empty(),
        cache_bound(c) == capacity,
{
    LruCache::new(capacity)
}

/// Relies on `lru_cache::LruCache::get_mut`: returns the value stored under
/// the key, refreshing its recency but leaving the contents unchanged.
#[verifier::external_body]
pub fn cache_get(c: &mut LruCache<u64, Option<u64>>, block_number: u64) -> (r: Option<
    Option<u64>,
>)
    ensures
        cache_contents(*final(c)) == cache_contents(*old(c)),
        cache_bound(*final(c)) == cache_bound(*old(c)),
        r matches Some(v) ==> cache_contents(*old(c)).dom().contains(block_number)
            && cache_contents(*old(c))[block_number] == v,
        r is None ==> !cache_contents(*old(c)).dom().contains(block_number),
{
    c.get_mut(&block_number).map(|v| *v)
}

/// Relies on `lru_cache::LruCache::insert`: stores the pair and, when the
/// cache then holds more pairs than its capacity, evicts the least recently
/// used one — so afterwards every pair held was either just inserted or
/// already present, and a cache still below its bound keeps the inserted
/// pair.
#[verifier::external_body]
pub fn cache_insert(c: &mut LruCache<u64, Option<u64>>, block_number: u64, timestamp: Option<u64>)
    ensures
        cache_bound(*final(c)) == cache_bound(*old(c)),
        cache_contents(*final(c)).submap_of(cache_contents(*old(c)).insert(block_number, timestamp)),
        cache_contents(*old(c)).dom().len() < cache_bound(*old(c)) ==> cache_contents(
            *final(c),
        ).dom().contains(block_number) && cache_contents(*final(c))[block_number] == timestamp,
{
    c.insert(block_number, timestamp);
}

} // verus!
