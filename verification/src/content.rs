//! The content store.
//!
//! An in-memory key-to-bytes lookup shared read-only by every
//! connection handler. The surrounding program fills it once at
//! startup; a key the router selected that the store cannot resolve is
//! a configuration error surfaced per connection.

use vstd::prelude::*;

use crate::route::{bytes_eq, copy_bytes};

verus! {

/// One stored entry: a content key and the body bytes served for it.
pub struct ContentEntry {
    pub key: Vec<u8>,
    pub body: Vec<u8>,
}

/// The body associated with the earliest entry whose key equals
/// `key`, if any.
pub open spec fn store_lookup(entries: Seq<ContentEntry>, key: Seq<u8>) -> Option<Seq<u8>>
    decreases entries.len(),
{
    if entries.len() == 0 {
        Option::None
    } else if entries[0].key@ == key {
        Option::Some(entries[0].body@)
    } else {
        store_lookup(entries.drop_first(), key)
    }
}

proof fn lemma_store_lookup_at(entries: Seq<ContentEntry>, key: Seq<u8>, i: int)
    requires
        0 <= i < entries.len(),
        entries[i].key@ == key,
        forall|j: int| 0 <= j < i ==> entries[j].key@ != key,
    ensures
        store_lookup(entries, key) == Option::Some(entries[i].body@),
    decreases i,
{
    if i > 0 {
        let t = entries.drop_first();
        assert(forall|j: int| 0 <= j < i - 1 ==> #[trigger] t[j].key@ != key);
        lemma_store_lookup_at(t, key, i - 1);
        assert(t[i - 1] == entries[i]);
    }
}

proof fn lemma_store_lookup_none(entries: Seq<ContentEntry>, key: Seq<u8>)
    requires
        forall|j: int| 0 <= j < entries.len() ==> entries[j].key@ != key,
    ensures
        store_lookup(entries, key) is None,
    decreases entries.len(),
{
    if entries.len() > 0 {
        let t = entries.drop_first();
        assert(forall|j: int| 0 <= j < t.len() ==> #[trigger] t[j].key@ != key);
        lemma_store_lookup_none(t, key);
    }
}

/// The read-only key-to-bytes store the handlers resolve content
/// keys against.
pub struct ContentStore {
    pub entries: Vec<ContentEntry>,
}

impl ContentStore {
    /// An empty store.
    pub fn new() -> (s: ContentStore)
        ensures
            s.entries@.len() == 0,
    {
        ContentStore { entries: Vec::new() }
    }

    /// Add one entry. Filling the store is a startup-time operation;
    /// the store is read-only afterwards.
    pub fn insert(&mut self, key: Vec<u8>, body: Vec<u8>)
        ensures
            final(self).entries@.len() == old(self).entries@.len() + 1,
            forall|i: int|
                0 <= i < old(self).entries@.len() ==> final(self).entries@[i] == old(
                    self,
                ).entries@[i],
            final(self).entries@.last().key@ == key@,
            final(self).entries@.last().body@ == body@,
    {
        self.entries.push(ContentEntry { key, body });
    }

    /// Resolve a content key to a copy of its body bytes, or `None`
    /// when the store holds no entry for it.
    pub fn lookup(&self, key: &Vec<u8>) -> (r: Option<Vec<u8>>)
        ensures
            crate::opt_bytes_view(r) == store_lookup(self.entries@, key@),
    {
        let n = self.entries.len();
        let mut i: usize = 0;
        while i < n
            invariant
                n == self.entries@.len(),
                0 <= i <= n,
                forall|j: int| 0 <= j < i ==> #[trigger] self.entries@[j].key@ != key@,
            decreases n - i,
        {
            if bytes_eq(&self.entries[i].key, key) {
                proof {
                    lemma_store_lookup_at(self.entries@, key@, i as int);
                }
                return Some(copy_bytes(&self.entries[i].body));
            }
            i += 1;
        }
        proof {
            lemma_store_lookup_none(self.entries@, key@);
        }
        None
    }
}

} // verus!
