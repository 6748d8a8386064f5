//! The bounded cache of served documents, kept in a moka cache.
use vstd::prelude::*;
use moka::sync::Cache;
use crate::display::DisplayMetadata;

verus! {

/// Default number of documents the cache holds.
pub const DEFAULT_CAPACITY: u64 = 10_000;

#[verifier::external_type_specification]
#[verifier::external_body]
#[verifier::reject_recursive_types(K)]
#[verifier::reject_recursive_types(V)]
#[verifier::reject_recursive_types(S)]
pub struct ExCache<K, V, S>(Cache<K, V, S>);

/// For each id, the document last inserted under it. The cache may evict an
/// entry at any time; a lookup then finds nothing, never another document.
pub uninterp spec fn cached(c: Cache<u64, DisplayMetadata>) -> Map<u64, DisplayMetadata>;

/// The bound on entries that the cache was built with.
pub uninterp spec fn cache_capacity(c: Cache<u64, DisplayMetadata>) -> nat;

/// Relies on moka's `Cache::new`: a cache bounded by `capacity` entries, holding nothing.
#[verifier::external_body]
pub(crate) fn new_cache(capacity: u64) -> (r: Cache<u64, DisplayMetadata>)
    ensures
        forall|k: u64| !cached(r).contains_key(k),
        cache_capacity(r) == capacity,
{
    Cache::new(capacity)
}

/// Relies on moka's `Cache::get`: a copy of the value last inserted under `id`,
/// or nothing where there is none or it was evicted.
#[verifier::external_body]
pub(crate) fn cache_get(c: &Cache<u64, DisplayMetadata>, id: u64) -> (r: Option<DisplayMetadata>)
    ensures
        r matches Some(m) ==> cached(*c).contains_key(id) && cached(*c)[id] == m,
{
    c.get(&id)
}

/// Relies on moka's `Cache::insert`: `m` becomes the value under `id`; no other
/// key gets a new value, and the bound stays.
#[verifier::external_body]
pub(crate) fn cache_insert(c: &mut Cache<u64, DisplayMetadata>, id: u64, m: DisplayMetadata)
    ensures
        cached(*final(c)) == cached(*old(c)).insert(id, m),
        cache_capacity(*final(c)) == cache_capacity(*old(c)),
{
    c.insert(id, m)
}

} // verus!
