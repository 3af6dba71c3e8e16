//! Credential values as the secret store hands them out, and the
//! explicit in-process cache that keeps a tick from refetching them.
//! Fetching a secret is the surrounding program's business; the cache is
//! filled on a miss and cleared on rotation, never overwritten.

use vstd::prelude::*;

verus! {

/// Database credentials held in the secret store.
#[derive(Debug)]
pub struct DatabaseCredentials {
    pub username: String,
    pub password: String,
    pub host: Option<String>,
    pub port: Option<u16>,
    pub dbname: Option<String>,
}

/// One cached secret.
#[derive(Debug)]
struct SecretEntry {
    key: String,
    value: String,
}

/// An explicit cache of fetched secrets, keyed by the secret's
/// identifier. Keys are unique.
#[derive(Debug)]
pub struct SecretCache {
    entries: Vec<SecretEntry>,
}

/// The value cached under `k`, if any: the value of the first entry
/// whose key is `k`.
spec fn lookup_in(entries: Seq<SecretEntry>, k: Seq<char>) -> Option<Seq<char>>
    decreases entries.len(),
{
    if entries.len() == 0 {
        None
    } else if entries[0].key@ == k {
        Some(entries[0].value@)
    } else {
        lookup_in(entries.drop_first(), k)
    }
}

/// Appending an entry resolves its own key (when it was absent) and
/// changes no other key.
proof fn lemma_lookup_push(entries: Seq<SecretEntry>, e: SecretEntry, k: Seq<char>)
    ensures
        lookup_in(entries.push(e), k) == (if lookup_in(entries, k) is Some {
            lookup_in(entries, k)
        } else if e.key@ == k {
            Some(e.value@)
        } else {
            None
        }),
    decreases entries.len(),
{
    reveal_with_fuel(lookup_in, 3);
    if entries.len() == 0 {
        assert(entries.push(e)[0] == e);
        assert(entries.push(e).drop_first() =~= Seq::<SecretEntry>::empty());
    } else {
        assert(entries.push(e)[0] == entries[0]);
        assert(entries.push(e).drop_first() =~= entries.drop_first().push(e));
        lemma_lookup_push(entries.drop_first(), e, k);
    }
}

impl SecretCache {
    /// No two entries cache the same key.
    pub closed spec fn wf(self) -> bool {
        forall|i: int, j: int|
            0 <= i < j < self.entries@.len() ==> (#[trigger] self.entries@[i].key@) != (
            #[trigger] self.entries@[j].key@)
    }

    /// The value cached under `k`, if any.
    pub closed spec fn spec_lookup(self, k: Seq<char>) -> Option<Seq<char>> {
        lookup_in(self.entries@, k)
    }

    /// An empty cache.
    pub fn new() -> (c: SecretCache)
        ensures
            c.wf(),
            forall|k: Seq<char>| #[trigger] c.spec_lookup(k) is None,
    {
        SecretCache { entries: Vec::new() }
    }

    /// Looks a secret up by its identifier.
    pub fn lookup(&self, key: &str) -> (r: Option<&String>)
        ensures
            match r {
                Some(v) => self.spec_lookup(key@) == Some(v@),
                None => self.spec_lookup(key@) is None,
            },
    {
        let key_string: String = key.to_owned();
        proof {
            assert(self.entries@.skip(0) =~= self.entries@);
        }
        let mut i: usize = 0;
        while i < self.entries.len()
            invariant
                i <= self.entries@.len(),
                key_string@ == key@,
                lookup_in(self.entries@, key@) == lookup_in(
                    self.entries@.skip(i as int),
                    key@,
                ),
            decreases self.entries@.len() - i,
        {
            proof {
                assert(self.entries@.skip(i as int)[0] == self.entries@[i as int]);
                assert(self.entries@.skip(i as int).drop_first() =~= self.entries@.skip(i + 1));
            }
            if self.entries[i].key == key_string {
                return Some(&self.entries[i].value);
            }
            i = i + 1;
        }
        proof {
            assert(self.entries@.skip(i as int).len() == 0);
        }
        None
    }

    /// Caches a freshly fetched secret. The cache is filled on a miss
    /// only: rotation goes through `clear`, never through overwriting.
    pub fn insert(&mut self, key: String, value: String)
        requires
            old(self).wf(),
            old(self).spec_lookup(key@) is None,
        ensures
            final(self).wf(),
            final(self).spec_lookup(key@) == Some(value@),
            forall|k: Seq<char>|
                k != key@ ==> #[trigger] final(self).spec_lookup(k) == old(self).spec_lookup(k),
    {
        proof {
            lemma_absent_key_not_in_entries(self.entries@, key@);
        }
        let ghost before = self.entries@;
        let entry = SecretEntry { key, value };
        self.entries.push(entry);
        proof {
            assert forall|k: Seq<char>| true implies #[trigger] lookup_in(
                self.entries@,
                k,
            ) == (if lookup_in(before, k) is Some {
                lookup_in(before, k)
            } else if entry.key@ == k {
                Some(entry.value@)
            } else {
                None
            }) by {
                lemma_lookup_push(before, entry, k);
            }
            assert forall|i: int, j: int| 0 <= i < j < self.entries@.len() implies (
            #[trigger] self.entries@[i].key@) != (#[trigger] self.entries@[j].key@) by {
                if j < before.len() {
                    assert(self.entries@[i] == before[i] && self.entries@[j] == before[j]);
                } else {
                    assert(self.entries@[j] == entry);
                    assert(self.entries@[i] == before[i]);
                }
            }
        }
    }

    /// Drops every cached secret, for credential rotation.
    pub fn clear(&mut self)
        ensures
            final(self).wf(),
            forall|k: Seq<char>| #[trigger] final(self).spec_lookup(k) is None,
    {
        self.entries.clear();
    }
}

/// A key that no lookup resolves stands in no entry.
proof fn lemma_absent_key_not_in_entries(entries: Seq<SecretEntry>, k: Seq<char>)
    requires
        lookup_in(entries, k) is None,
    ensures
        forall|i: int| 0 <= i < entries.len() ==> (#[trigger] entries[i].key@) != k,
    decreases entries.len(),
{
    if entries.len() > 0 {
        lemma_absent_key_not_in_entries(entries.drop_first(), k);
        assert forall|i: int| 0 <= i < entries.len() implies (#[trigger] entries[i].key@) != k by {
            if i > 0 {
                assert(entries.drop_first()[i - 1] == entries[i]);
            }
        }
    }
}

} // verus!
