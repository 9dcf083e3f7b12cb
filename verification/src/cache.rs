//! The response cache: content-addressed storage of earlier responses.
//!
//! The cache is advisory. A miss is always safe, and a `put` under a key that
//! is already present replaces what was stored there.
use vstd::prelude::*;

verus! {

/// Whether two byte strings hold the same bytes.
pub fn same_bytes(a: &[u8], b: &[u8]) -> (same: bool)
    ensures
        same == (a@ == b@),
{
    if a.len() != b.len() {
        return false;
    }
    let mut i: usize = 0;
    while i < a.len()
        invariant
            a@.len() == b@.len(),
            i <= a@.len(),
            forall|j: int| 0 <= j < i ==> a@[j] == b@[j],
        decreases a@.len() - i,
    {
        if a[i] != b[i] {
            return false;
        }
        i += 1;
    }
    assert(a@ =~= b@);
    true
}

/// One stored response.
pub struct CacheEntry {
    key: Vec<u8>,
    value: Vec<u8>,
}

/// A byte-addressed store of responses, keyed by request digest.
pub struct ResponseCache {
    entries: Vec<CacheEntry>,
}

impl View for ResponseCache {
    type V = Map<Seq<u8>, Seq<u8>>;

    /// The stored responses by key.
    closed spec fn view(&self) -> Map<Seq<u8>, Seq<u8>> {
        Map::new(
            |k: Seq<u8>| exists|i: int| self.holds_at(i, k),
            |k: Seq<u8>| self.entries[self.slot_of(k)].value@,
        )
    }
}

impl ResponseCache {
    /// The cache is well formed: no key is stored twice.
    pub closed spec fn wf(&self) -> bool {
        forall|i: int, j: int|
            0 <= i < j < self.entries.len() ==> #[trigger] self.key_at(i) != #[trigger] self.key_at(
                j,
            )
    }

    spec fn key_at(&self, i: int) -> Seq<u8> {
        self.entries[i].key@
    }

    /// In a well-formed cache a key is held at one position only.
    proof fn lemma_one_slot(&self, a: int, b: int, key: Seq<u8>)
        requires
            self.wf(),
            self.holds_at(a, key),
            self.holds_at(b, key),
        ensures
            a == b,
    {
        if a < b {
            assert(self.key_at(a) != self.key_at(b));
        } else if b < a {
            assert(self.key_at(b) != self.key_at(a));
        }
    }

    spec fn holds_at(&self, i: int, key: Seq<u8>) -> bool {
        0 <= i < self.entries.len() && self.entries[i].key@ == key
    }

    spec fn slot_of(&self, key: Seq<u8>) -> int {
        choose|i: int| self.holds_at(i, key)
    }

    /// An empty cache.
    pub fn new() -> (cache: ResponseCache)
        ensures
            cache.wf(),
            cache@ == Map::<Seq<u8>, Seq<u8>>::empty(),
    {
        let cache = ResponseCache { entries: Vec::new() };
        assert(cache@ =~= Map::<Seq<u8>, Seq<u8>>::empty());
        cache
    }

    /// The position of `key` among the entries, if it is stored.
    fn find(&self, key: &[u8]) -> (at: Option<usize>)
        ensures
            match at {
                Some(i) => self.holds_at(i as int, key@),
                None => forall|j: int| !self.holds_at(j, key@),
            },
    {
        let mut i: usize = 0;
        while i < self.entries.len()
            invariant
                i <= self.entries.len(),
                forall|j: int| 0 <= j < i ==> !self.holds_at(j, key@),
            decreases self.entries.len() - i,
        {
            if same_bytes(self.entries[i].key.as_slice(), key) {
                return Some(i);
            }
            i += 1;
        }
        None
    }

    /// The response stored under `key`: `Some` exactly when there is one.
    pub fn get(&self, key: &[u8]) -> (found: Option<Vec<u8>>)
        requires
            self.wf(),
        ensures
            match found {
                Some(bytes) => self@.contains_key(key@) && bytes@ == self@[key@],
                None => !self@.contains_key(key@),
            },
    {
        match self.find(key) {
            Some(i) => {
                proof {
                    self.lemma_one_slot(self.slot_of(key@), i as int, key@);
                }
                Some(self.entries[i].value.clone())
            },
            None => None,
        }
    }

    /// Stores `value` under `key`, in place of whatever was there.
    pub fn put(&mut self, key: Vec<u8>, value: Vec<u8>)
        requires
            old(self).wf(),
        ensures
            final(self).wf(),
            final(self)@ == old(self)@.insert(key@, value@),
    {
        let ghost before = *self;
        let at = self.find(key.as_slice());
        match at {
            Some(i) => {
                self.entries.set(i, CacheEntry { key, value });
                assert forall|a: int, b: int| 0 <= a < b < self.entries.len() implies #[trigger]
                    self.key_at(a) != #[trigger] self.key_at(b) by {
                    assert(before.holds_at(i as int, key@));
                    assert(before.key_at(a) != before.key_at(b));
                }
                assert forall|k: Seq<u8>, j: int| before.holds_at(j, k) == self.holds_at(j, k) by {}
                assert forall|k: Seq<u8>| #[trigger]
                    self@.contains_key(k) == before@.insert(key@, value@).contains_key(k) by {
                    if before.holds_at(before.slot_of(k), k) {
                        assert(self.holds_at(before.slot_of(k), k));
                    }
                    if self.holds_at(self.slot_of(k), k) {
                        assert(before.holds_at(self.slot_of(k), k));
                    }
                    if k == key@ {
                        assert(self.holds_at(i as int, k));
                    }
                }
                assert forall|k: Seq<u8>| #[trigger] self@.contains_key(k) implies self@[k]
                    == before@.insert(key@, value@)[k] by {
                    let s = self.slot_of(k);
                    assert(self.holds_at(s, k));
                    assert(before.holds_at(s, k));
                    if k == key@ {
                        self.lemma_one_slot(s, i as int, k);
                    } else {
                        assert(before.holds_at(before.slot_of(k), k));
                        before.lemma_one_slot(before.slot_of(k), s, k);
                    }
                }
                assert(self@ =~= before@.insert(key@, value@));
            },
            None => {
                self.entries.push(CacheEntry { key, value });
                let ghost n = before.entries.len() as int;
                assert forall|a: int, b: int| 0 <= a < b < self.entries.len() implies #[trigger]
                    self.key_at(a) != #[trigger] self.key_at(b) by {
                    if b < n {
                        assert(before.key_at(a) != before.key_at(b));
                    } else {
                        assert(!before.holds_at(a, key@));
                    }
                }
                assert forall|k: Seq<u8>, j: int| before.holds_at(j, k) implies self.holds_at(
                    j,
                    k,
                ) by {}
                assert forall|k: Seq<u8>| #[trigger]
                    self@.contains_key(k) == before@.insert(key@, value@).contains_key(k) by {
                    if before.holds_at(before.slot_of(k), k) {
                        assert(self.holds_at(before.slot_of(k), k));
                    }
                    if self.holds_at(self.slot_of(k), k) {
                        let s = self.slot_of(k);
                        if s < n {
                            assert(before.holds_at(s, k));
                        }
                    }
                    if k == key@ {
                        assert(self.holds_at(n, k));
                    }
                }
                assert forall|k: Seq<u8>| #[trigger] self@.contains_key(k) implies self@[k]
                    == before@.insert(key@, value@)[k] by {
                    let s = self.slot_of(k);
                    assert(self.holds_at(s, k));
                    if k == key@ {
                        if s < n {
                            assert(before.holds_at(s, k));
                        }
                        assert(s == n);
                    } else {
                        assert(before.holds_at(s, k));
                        assert(before.holds_at(before.slot_of(k), k));
                        before.lemma_one_slot(before.slot_of(k), s, k);
                    }
                }
                assert(self@ =~= before@.insert(key@, value@));
            },
        }
    }

    /// How many responses are stored.
    pub fn len(&self) -> (n: usize)
        requires
            self.wf(),
        ensures
            n == self@.dom().len(),
            self@.dom().finite(),
    {
        proof {
            self.lemma_domain_size(self.entries.len() as int);
            assert(self.prefix_keys(self.entries.len() as int) =~= self@.dom()) by {
                assert forall|k: Seq<u8>| self@.dom().contains(k) implies self.prefix_keys(
                    self.entries.len() as int,
                ).contains(k) by {
                    assert(self.holds_at(self.slot_of(k), k));
                }
            }
        }
        self.entries.len()
    }

    /// The keys held by the first `n` entries.
    spec fn prefix_keys(&self, n: int) -> Set<Seq<u8>> {
        Set::new(|k: Seq<u8>| exists|i: int| 0 <= i < n && self.holds_at(i, k))
    }

    /// With distinct keys, the first `n` entries hold `n` keys.
    proof fn lemma_domain_size(&self, n: int)
        requires
            self.wf(),
            0 <= n <= self.entries.len(),
        ensures
            self.prefix_keys(n).finite(),
            self.prefix_keys(n).len() == n,
        decreases n,
    {
        if n == 0 {
            assert(self.prefix_keys(0) =~= Set::empty());
        } else {
            self.lemma_domain_size(n - 1);
            let last = self.entries[n - 1].key@;
            assert(self.holds_at(n - 1, last));
            assert(self.prefix_keys(n) =~= self.prefix_keys(n - 1).insert(last)) by {
                assert forall|k: Seq<u8>| self.prefix_keys(n).contains(k) implies self.prefix_keys(
                    n - 1,
                ).insert(last).contains(k) by {
                    let i = choose|i: int| 0 <= i < n && self.holds_at(i, k);
                    if i < n - 1 {
                        assert(self.prefix_keys(n - 1).contains(k));
                    }
                }
            }
            if self.prefix_keys(n - 1).contains(last) {
                let i = choose|i: int| 0 <= i < n - 1 && self.holds_at(i, last);
                self.lemma_one_slot(i, n - 1, last);
            }
        }
    }
}

} // verus!
