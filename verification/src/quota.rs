//! The mint-quota tracker: a per-public-key counter of consumed free mints.
//!
//! Counters are kept in an association list with pairwise-distinct keys,
//! created lazily at a key's first mint; a counter never decreases and never
//! resets.
use vstd::prelude::*;

verus! {

/// One public key's consumed-mint counter.
#[derive(Debug)]
pub struct QuotaEntry {
    pub key: Vec<u8>,
    pub count: u8,
}

/// The consumed-mint count recorded for `key`: the count of the first entry
/// with that key, or zero if there is none.
pub open spec fn quota_count(entries: Seq<QuotaEntry>, key: Seq<u8>) -> u8
    decreases entries.len(),
{
    if entries.len() == 0 {
        0
    } else if entries[0].key@ == key {
        entries[0].count
    } else {
        quota_count(entries.drop_first(), key)
    }
}

/// No entry records the key.
pub open spec fn quota_key_absent(entries: Seq<QuotaEntry>, key: Seq<u8>) -> bool {
    forall|j: int| 0 <= j < entries.len() ==> entries[j].key@ != key
}

/// The keys of the entries are pairwise distinct.
pub open spec fn quota_keys_distinct(entries: Seq<QuotaEntry>) -> bool {
    forall|i: int, j: int|
        0 <= i < j < entries.len() ==> entries[i].key@ != entries[j].key@
}

/// Every recorded count is at most `limit`.
pub open spec fn quota_counts_bounded(entries: Seq<QuotaEntry>, limit: u8) -> bool {
    forall|i: int| 0 <= i < entries.len() ==> entries[i].count <= limit
}

/// An entry that matches the key, with no earlier match, carries the
/// recorded count.
pub proof fn lemma_quota_count_found(entries: Seq<QuotaEntry>, key: Seq<u8>, i: int)
    requires
        0 <= i < entries.len(),
        entries[i].key@ == key,
        forall|j: int| 0 <= j < i ==> entries[j].key@ != key,
    ensures
        quota_count(entries, key) == entries[i].count,
    decreases i,
{
    if i > 0 {
        lemma_quota_count_found(entries.drop_first(), key, i - 1);
    }
}

/// A key that no entry records has count zero.
pub proof fn lemma_quota_count_absent(entries: Seq<QuotaEntry>, key: Seq<u8>)
    requires
        quota_key_absent(entries, key),
    ensures
        quota_count(entries, key) == 0,
    decreases entries.len(),
{
    if entries.len() > 0 {
        assert forall|j: int| 0 <= j < entries.drop_first().len() implies entries.drop_first()[j].key@
            != key by {
            assert(entries.drop_first()[j] == entries[j + 1]);
        }
        lemma_quota_count_absent(entries.drop_first(), key);
    }
}

/// Replacing the entry at `i` by one with the same key changes that key's
/// count to the new one and no other key's count.
pub proof fn lemma_quota_count_update(
    entries: Seq<QuotaEntry>,
    i: int,
    entry: QuotaEntry,
    key: Seq<u8>,
)
    requires
        0 <= i < entries.len(),
        entry.key@ == entries[i].key@,
        forall|j: int| 0 <= j < i ==> entries[j].key@ != entries[i].key@,
    ensures
        quota_count(entries.update(i, entry), key) == if key == entries[i].key@ {
            entry.count
        } else {
            quota_count(entries, key)
        },
    decreases i,
{
    let updated = entries.update(i, entry);
    if i == 0 {
        assert(updated.drop_first() =~= entries.drop_first());
    } else {
        assert(updated.drop_first() =~= entries.drop_first().update(i - 1, entry));
        lemma_quota_count_update(entries.drop_first(), i - 1, entry, key);
    }
}

/// Appending an entry for a key that no entry records yet gives that key the
/// appended count and changes no other key's count.
pub proof fn lemma_quota_count_push(entries: Seq<QuotaEntry>, entry: QuotaEntry, key: Seq<u8>)
    requires
        quota_key_absent(entries, entry.key@),
    ensures
        quota_count(entries.push(entry), key) == if key == entry.key@ {
            entry.count
        } else {
            quota_count(entries, key)
        },
    decreases entries.len(),
{
    let pushed = entries.push(entry);
    if entries.len() == 0 {
        assert(pushed[0] == entry);
        assert(pushed.drop_first() =~= Seq::<QuotaEntry>::empty());
        assert(quota_count(pushed.drop_first(), key) == 0);
        assert(quota_count(entries, key) == 0);
    } else {
        assert(entries[0].key@ != entry.key@);
        assert(pushed[0] == entries[0]);
        assert(pushed.drop_first() =~= entries.drop_first().push(entry));
        assert forall|j: int| 0 <= j < entries.drop_first().len() implies entries.drop_first()[j].key@
            != entry.key@ by {
            assert(entries.drop_first()[j] == entries[j + 1]);
        }
        lemma_quota_count_push(entries.drop_first(), entry, key);
        assert(quota_count(entries, key) == if entries[0].key@ == key {
            entries[0].count
        } else {
            quota_count(entries.drop_first(), key)
        });
        assert(quota_count(pushed, key) == if pushed[0].key@ == key {
            pushed[0].count
        } else {
            quota_count(pushed.drop_first(), key)
        });
    }
}

/// Under the distinctness and bound invariants every count that the lookup
/// yields is at most the limit.
pub proof fn lemma_quota_count_bounded(entries: Seq<QuotaEntry>, key: Seq<u8>, limit: u8)
    requires
        quota_counts_bounded(entries, limit),
    ensures
        quota_count(entries, key) <= limit,
    decreases entries.len(),
{
    if entries.len() > 0 && entries[0].key@ != key {
        assert(quota_counts_bounded(entries.drop_first(), limit));
        lemma_quota_count_bounded(entries.drop_first(), key, limit);
    }
}

/// The index of the first entry recording the key, if any.
pub fn quota_find(entries: &Vec<QuotaEntry>, key: &Vec<u8>) -> (r: Option<usize>)
    ensures
        r matches Some(i) ==> i < entries@.len() && entries@[i as int].key@ == key@ && (forall|
            j: int,
        |
            0 <= j < i ==> entries@[j].key@ != key@),
        r is None ==> quota_key_absent(entries@, key@),
{
    let mut i: usize = 0;
    while i < entries.len()
        invariant
            0 <= i <= entries@.len(),
            forall|j: int| 0 <= j < i ==> entries@[j].key@ != key@,
        decreases entries@.len() - i,
    {
        if entries[i].key == *key {
            proof {
                assert(entries@[i as int].key@ =~= key@);
            }
            return Some(i);
        }
        proof {
            assert(entries@[i as int].key@ != key@);
        }
        i = i + 1;
    }
    None
}

} // verus!
