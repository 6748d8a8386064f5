//! Resolution of a token id: cache lookup, chain read, rendering, and caching of
//! the derived document, as a machine of steps. The caller performs each step's
//! outside work (the chain read, the rendering) and hands back its outcome.
//!
//! Concurrent resolutions of one id are not coalesced: each may read the chain
//! and render, and each inserts its document. For one record they insert equal
//! documents, so the cache ends with one entry for the id.
use vstd::prelude::*;
use moka::sync::Cache;
use crate::cache::{cache_capacity, cache_get, cache_insert, cached, new_cache, DEFAULT_CAPACITY};
use crate::display::{build_display, describes, lemma_describes_unique, render_request, same_document, DisplayMetadata, RenderRequest};
use crate::evm::types::{record_of, supported, Metadata, Token};

verus! {

/// The chain read failed: a transport fault or a revert.
#[derive(Clone, Copy, Debug, PartialEq, Eq)]
pub struct ChainError;

/// What the caller does next for a resolution.
#[derive(Clone, Debug, PartialEq, Eq)]
pub enum Step {
    /// Serve this document.
    Served(DisplayMetadata),
    /// Read the record of this id from the chain.
    Query(u64),
    /// Render this request, then finish with the record.
    Render(RenderRequest, Metadata),
    /// Answer that the token was not found.
    NotFound,
}

pub struct Resolver {
    metadata_host: String,
    dapp_host: String,
    cache: Cache<u64, DisplayMetadata>,
}

impl Resolver {
    /// What the cache holds, for each id the document last stored.
    pub closed spec fn cached(&self) -> Map<u64, DisplayMetadata> {
        cached(self.cache)
    }

    /// The bound on documents that the cache was built with.
    pub closed spec fn capacity(&self) -> nat {
        cache_capacity(self.cache)
    }

    /// Base URL under which artifacts are served.
    pub closed spec fn metadata_host(&self) -> Seq<char> {
        self.metadata_host@
    }

    /// Base URL of the application's token pages.
    pub closed spec fn dapp_host(&self) -> Seq<char> {
        self.dapp_host@
    }

    /// A resolver whose cache holds at most `capacity` documents, none yet.
    pub fn with_capacity(metadata_host: String, dapp_host: String, capacity: u64) -> (r: Resolver)
        ensures
            r.metadata_host() == metadata_host@,
            r.dapp_host() == dapp_host@,
            forall|k: u64| !r.cached().contains_key(k),
            r.capacity() == capacity,
    {
        Resolver { metadata_host, dapp_host, cache: new_cache(capacity) }
    }

    /// A resolver with the default cache bound.
    pub fn new(metadata_host: String, dapp_host: String) -> (r: Resolver)
        ensures
            r.metadata_host() == metadata_host@,
            r.dapp_host() == dapp_host@,
            forall|k: u64| !r.cached().contains_key(k),
            r.capacity() == DEFAULT_CAPACITY,
    {
        Resolver::with_capacity(metadata_host, dapp_host, DEFAULT_CAPACITY)
    }

    /// First step: a cached document is served as it was stored; else the
    /// record is read from the chain.
    pub fn start(&self, id: u64) -> (r: Step)
        ensures
            r matches Step::Served(m) ==> self.cached().contains_key(id) && self.cached()[id] == m,
            !(r matches Step::Served(_)) ==> r == Step::Query(id),
            !self.cached().contains_key(id) ==> r == Step::Query(id),
    {
        match cache_get(&self.cache, id) {
            Some(m) => Step::Served(m),
            None => Step::Query(id),
        }
    }

    /// Second step, on the outcome of the chain read. A failed read, or a value
    /// that is not a record, is not found; nothing is stored. A record is
    /// rendered at the id's path with its region.
    pub fn on_record(&self, id: u64, read: Result<Token, ChainError>) -> (r: Step)
        ensures
            (match read {
                Ok(t) => match record_of(t) {
                    Some(rec) => r matches Step::Render(q, m) && m == rec && supported(m.field)
                        && q.path@ == crate::display::image_path(id) && q.field == rec.field
                        && q.max_iterations == crate::display::MAX_ITERATIONS,
                    None => r == Step::NotFound,
                },
                Err(_) => r == Step::NotFound,
            }),
    {
        match read {
            Ok(t) => match Metadata::from_token(&t) {
                Ok(rec) => Step::Render(render_request(id, &rec), rec),
                Err(_) => Step::NotFound,
            },
            Err(_) => Step::NotFound,
        }
    }

    /// Last step, once rendering was tried: whether it succeeded does not
    /// matter. The document is derived from the record, stored under `id`, and
    /// served; the stored and the served copies are built alike.
    pub fn finish(&mut self, id: u64, record: &Metadata, rendered: bool) -> (r: DisplayMetadata)
        requires
            supported(record.field),
        ensures
            describes(r, id, *record, old(self).metadata_host(), old(self).dapp_host()),
            final(self).cached().contains_key(id),
            describes(final(self).cached()[id], id, *record, old(self).metadata_host(), old(self).dapp_host()),
            same_document(r, final(self).cached()[id]),
            final(self).cached() == old(self).cached().insert(id, final(self).cached()[id]),
            final(self).capacity() == old(self).capacity(),
            final(self).metadata_host() == old(self).metadata_host(),
            final(self).dapp_host() == old(self).dapp_host(),
    {
        let stored = build_display(id, record, self.metadata_host.as_str(), self.dapp_host.as_str());
        let served = build_display(id, record, self.metadata_host.as_str(), self.dapp_host.as_str());
        cache_insert(&mut self.cache, id, stored);
        proof {
            lemma_describes_unique(served, self.cached()[id], id, *record, self.metadata_host@, self.dapp_host@);
        }
        served
    }
}

} // verus!
