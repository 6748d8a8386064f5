//! Properties of resolution that relate several steps.
use vstd::prelude::*;
use crate::display::{describes, lemma_describes_unique, same_document, DisplayMetadata};
use crate::evm::types::Metadata;

verus! {

/// Once a document is cached for `id`, storing the document of any other id leaves
/// it as it was: resolving `id` again serves the identical document, whatever the
/// chain now holds for `id`, since only a miss reads the chain.
pub proof fn lemma_cached_document_stays(
    before: Map<u64, DisplayMetadata>,
    id: u64,
    other: u64,
    d: DisplayMetadata,
)
    requires
        before.contains_key(id),
        other != id,
    ensures
        before.insert(other, d).contains_key(id),
        before.insert(other, d)[id] == before[id],
{
}

/// The cache after each of `docs` is stored under `id`, in order.
pub open spec fn store_each(
    before: Map<u64, DisplayMetadata>,
    id: u64,
    docs: Seq<DisplayMetadata>,
) -> Map<u64, DisplayMetadata>
    decreases docs.len(),
{
    if docs.len() == 0 {
        before
    } else {
        store_each(before, id, docs.drop_last()).insert(id, docs.last())
    }
}

/// Any number of resolutions of one uncached id that run side by side each read
/// the same record and store a document: all of them serve the same document, and
/// the cache ends with exactly one entry for the id, the last one stored, which
/// describes the record; no other entry changes.
pub proof fn lemma_concurrent_first_access(
    before: Map<u64, DisplayMetadata>,
    id: u64,
    record: Metadata,
    metadata_host: Seq<char>,
    dapp_host: Seq<char>,
    docs: Seq<DisplayMetadata>,
)
    requires
        docs.len() >= 1,
        forall|i: int| 0 <= i < docs.len() ==> describes(#[trigger] docs[i], id, record, metadata_host, dapp_host),
    ensures
        forall|i: int, j: int| 0 <= i < docs.len() && 0 <= j < docs.len() ==> same_document(#[trigger] docs[i], #[trigger] docs[j]),
        store_each(before, id, docs).dom() == before.dom().insert(id),
        store_each(before, id, docs)[id] == docs.last(),
        describes(store_each(before, id, docs)[id], id, record, metadata_host, dapp_host),
        forall|k: u64| k != id && before.contains_key(k) ==> #[trigger] store_each(before, id, docs)[k] == before[k],
    decreases docs.len(),
{
    assert forall|i: int, j: int| 0 <= i < docs.len() && 0 <= j < docs.len() implies same_document(#[trigger] docs[i], #[trigger] docs[j]) by {
        lemma_describes_unique(docs[i], docs[j], id, record, metadata_host, dapp_host);
    }
    if docs.len() == 1 {
        assert(docs.drop_last().len() == 0);
        assert(store_each(before, id, docs.drop_last()) == before);
        assert(store_each(before, id, docs) == before.insert(id, docs.last()));
        assert(store_each(before, id, docs).dom() =~= before.dom().insert(id));
    } else {
        let rest = docs.drop_last();
        assert forall|i: int| 0 <= i < rest.len() implies describes(#[trigger] rest[i], id, record, metadata_host, dapp_host) by {
            assert(rest[i] == docs[i]);
        }
        lemma_concurrent_first_access(before, id, record, metadata_host, dapp_host, rest);
        assert(store_each(before, id, docs) == store_each(before, id, rest).insert(id, docs.last()));
        assert(store_each(before, id, docs).dom() =~= before.dom().insert(id));
    }
}

} // verus!
