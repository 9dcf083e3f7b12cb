//! A small map keyed by strings, and a small set of user ids.
//!
//! Both keep their items in a vector and are viewed as the `Map` and `Set`
//! they stand for, so the tables built on them reason about maps and sets
//! and never about positions.
use vstd::prelude::*;

verus! {

/// One binding of a [`TextMap`].
pub struct TextEntry<V> {
    key: String,
    value: V,
}

/// A map from strings to `V`.
pub struct TextMap<V> {
    entries: Vec<TextEntry<V>>,
}

impl<V> View for TextMap<V> {
    type V = Map<Seq<char>, V>;

    /// The bindings as a map.
    closed spec fn view(&self) -> Map<Seq<char>, V> {
        Map::new(
            |k: Seq<char>| exists|i: int| self.holds_at(i, k),
            |k: Seq<char>| self.entries[self.slot_of(k)].value,
        )
    }
}

impl<V> TextMap<V> {
    /// The map is well formed: no key is bound twice.
    pub closed spec fn wf(&self) -> bool {
        forall|i: int, j: int|
            0 <= i < j < self.entries.len() ==> #[trigger] self.key_at(i) != #[trigger] self.key_at(
                j,
            )
    }

    spec fn key_at(&self, i: int) -> Seq<char> {
        self.entries[i].key@
    }

    spec fn holds_at(&self, i: int, key: Seq<char>) -> bool {
        0 <= i < self.entries.len() && self.entries[i].key@ == key
    }

    spec fn slot_of(&self, key: Seq<char>) -> int {
        choose|i: int| self.holds_at(i, key)
    }

    /// In a well-formed map a key is held at one position only.
    proof fn lemma_one_slot(&self, a: int, b: int, key: Seq<char>)
        requires
            self.wf(),
            self.holds_at(a, key),
            self.holds_at(b, key),
        ensures
            a == b,
    {
        if a < b {
            assert(self.key_at(a) != self.key_at(b));
        } else if b < a {
            assert(self.key_at(b) != self.key_at(a));
        }
    }

    /// What the map holds, read off position `i`.
    proof fn lemma_read(&self, i: int, key: Seq<char>)
        requires
            self.wf(),
            self.holds_at(i, key),
        ensures
            self@.contains_key(key),
            self@[key] == self.entries[i].value,
    {
        self.lemma_one_slot(self.slot_of(key), i, key);
    }

    /// The empty map.
    pub fn new() -> (m: TextMap<V>)
        ensures
            m.wf(),
            m@ == Map::<Seq<char>, V>::empty(),
    {
        let m = TextMap { entries: Vec::new() };
        assert(m@ =~= Map::<Seq<char>, V>::empty());
        m
    }

    /// The position of `key` among the entries, if it is bound.
    fn find(&self, key: &String) -> (at: Option<usize>)
        ensures
            match at {
                Some(i) => self.holds_at(i as int, key@),
                None => forall|j: int| !self.holds_at(j, key@),
            },
    {
        let mut i: usize = 0;
        while i < self.entries.len()
            invariant
                i <= self.entries.len(),
                forall|j: int| 0 <= j < i ==> !self.holds_at(j, key@),
            decreases self.entries.len() - i,
        {
            if self.entries[i].key == *key {
                return Some(i);
            }
            i += 1;
        }
        None
    }

    /// Whether `key` is bound.
    pub fn contains_key(&self, key: &String) -> (b: bool)
        requires
            self.wf(),
        ensures
            b == self@.contains_key(key@),
    {
        self.find(key).is_some()
    }

    /// The value bound to `key`: `Some` exactly when there is one.
    pub fn get(&self, key: &String) -> (found: Option<&V>)
        requires
            self.wf(),
        ensures
            match found {
                Some(v) => self@.contains_key(key@) && *v == self@[key@],
                None => !self@.contains_key(key@),
            },
    {
        match self.find(key) {
            Some(i) => {
                proof {
                    self.lemma_read(i as int, key@);
                }
                Some(&self.entries[i].value)
            },
            None => None,
        }
    }

    /// Binds `key` to `value`, in place of whatever it was bound to.
    pub fn insert(&mut self, key: String, value: V)
        requires
            old(self).wf(),
        ensures
            final(self).wf(),
            final(self)@ == old(self)@.insert(key@, value),
    {
        let ghost before = *self;
        let at = self.find(&key);
        match at {
            Some(i) => {
                self.entries.set(i, TextEntry { key, value });
                assert forall|a: int, b: int| 0 <= a < b < self.entries.len() implies #[trigger]
                    self.key_at(a) != #[trigger] self.key_at(b) by {
                    assert(before.holds_at(i as int, key@));
                    assert(before.key_at(a) != before.key_at(b));
                }
                assert forall|k: Seq<char>, j: int| before.holds_at(j, k) == self.holds_at(
                    j,
                    k,
                ) by {}
                assert forall|k: Seq<char>| #[trigger]
                    self@.contains_key(k) == before@.insert(key@, value).contains_key(k) by {
                    if before.holds_at(before.slot_of(k), k) {
                        assert(self.holds_at(before.slot_of(k), k));
                    }
                    if self.holds_at(self.slot_of(k), k) {
                        assert(before.holds_at(self.slot_of(k), k));
                    }
                    if k == key@ {
                        assert(self.holds_at(i as int, k));
                    }
                }
                assert forall|k: Seq<char>| #[trigger] self@.contains_key(k) implies self@[k]
                    == before@.insert(key@, value)[k] by {
                    let s = self.slot_of(k);
                    assert(self.holds_at(s, k));
                    assert(before.holds_at(s, k));
                    if k == key@ {
                        self.lemma_one_slot(s, i as int, k);
                    } else {
                        before.lemma_read(s, k);
                    }
                }
                assert(self@ =~= before@.insert(key@, value));
            },
            None => {
                self.entries.push(TextEntry { key, value });
                let ghost n = before.entries.len() as int;
                assert forall|a: int, b: int| 0 <= a < b < self.entries.len() implies #[trigger]
                    self.key_at(a) != #[trigger] self.key_at(b) by {
                    if b < n {
                        assert(before.key_at(a) != before.key_at(b));
                    } else {
                        assert(!before.holds_at(a, key@));
                    }
                }
                assert forall|k: Seq<char>, j: int| before.holds_at(j, k) implies self.holds_at(
                    j,
                    k,
                ) by {}
                assert forall|k: Seq<char>| #[trigger]
                    self@.contains_key(k) == before@.insert(key@, value).contains_key(k) by {
                    if before.holds_at(before.slot_of(k), k) {
                        assert(self.holds_at(before.slot_of(k), k));
                    }
                    if self.holds_at(self.slot_of(k), k) {
                        let s = self.slot_of(k);
                        if s < n {
                            assert(before.holds_at(s, k));
                        }
                    }
                    if k == key@ {
                        assert(self.holds_at(n, k));
                    }
                }
                assert forall|k: Seq<char>| #[trigger] self@.contains_key(k) implies self@[k]
                    == before@.insert(key@, value)[k] by {
                    let s = self.slot_of(k);
                    assert(self.holds_at(s, k));
                    if k == key@ {
                        if s < n {
                            assert(before.holds_at(s, k));
                        }
                    } else {
                        assert(before.holds_at(s, k));
                        before.lemma_read(s, k);
                    }
                }
                assert(self@ =~= before@.insert(key@, value));
            },
        }
    }

    /// Unbinds `key` and hands out what it was bound to, if anything.
    pub fn remove(&mut self, key: &String) -> (taken: Option<V>)
        requires
            old(self).wf(),
        ensures
            final(self).wf(),
            final(self)@ == old(self)@.remove(key@),
            taken == if old(self)@.contains_key(key@) {
                Some(old(self)@[key@])
            } else {
                None
            },
    {
        let ghost before = *self;
        let at = self.find(key);
        match at {
            Some(i) => {
                proof {
                    before.lemma_read(i as int, key@);
                }
                let entry = self.entries.remove(i);
                let ghost shift = |j: int| if j < i { j } else { j + 1 };
                assert forall|j: int| 0 <= j < self.entries.len() implies self.entries[j]
                    == before.entries[shift(j)] by {}
                assert forall|a: int, b: int| 0 <= a < b < self.entries.len() implies #[trigger]
                    self.key_at(a) != #[trigger] self.key_at(b) by {
                    assert(before.key_at(shift(a)) != before.key_at(shift(b)));
                }
                assert forall|k: Seq<char>| #[trigger]
                    self@.contains_key(k) == before@.remove(key@).contains_key(k) by {
                    if self.holds_at(self.slot_of(k), k) {
                        let s = self.slot_of(k);
                        assert(before.holds_at(shift(s), k));
                        if k == key@ {
                            before.lemma_one_slot(shift(s), i as int, k);
                        }
                    }
                    if k != key@ && before.holds_at(before.slot_of(k), k) {
                        let s = before.slot_of(k);
                        if s < i {
                            assert(self.holds_at(s, k));
                        } else {
                            assert(self.holds_at(s - 1, k));
                        }
                    }
                }
                assert forall|k: Seq<char>| #[trigger] self@.contains_key(k) implies self@[k]
                    == before@.remove(key@)[k] by {
                    let s = self.slot_of(k);
                    assert(self.holds_at(s, k));
                    assert(before.holds_at(shift(s), k));
                    before.lemma_read(shift(s), k);
                }
                assert(self@ =~= before@.remove(key@));
                Some(entry.value)
            },
            None => {
                assert(!before@.contains_key(key@));
                assert(self@ =~= before@.remove(key@));
                None
            },
        }
    }
}

/// A set of user ids.
pub struct UserSet {
    users: Vec<u64>,
}

impl View for UserSet {
    type V = Set<u64>;

    /// The users as a set.
    closed spec fn view(&self) -> Set<u64> {
        self.users@.to_set()
    }
}

impl UserSet {
    /// The set is well formed: no user is listed twice.
    pub closed spec fn wf(&self) -> bool {
        self.users@.no_duplicates()
    }

    /// The empty set.
    pub fn new() -> (s: UserSet)
        ensures
            s.wf(),
            s@ == Set::<u64>::empty(),
    {
        let s = UserSet { users: Vec::new() };
        assert(s@ =~= Set::<u64>::empty());
        s
    }

    /// The position of `user`, if it is a member.
    fn find(&self, user: u64) -> (at: Option<usize>)
        ensures
            match at {
                Some(i) => i < self.users@.len() && self.users@[i as int] == user,
                None => !self.users@.contains(user),
            },
    {
        let mut i: usize = 0;
        while i < self.users.len()
            invariant
                i <= self.users.len(),
                forall|j: int| 0 <= j < i ==> self.users@[j] != user,
            decreases self.users.len() - i,
        {
            if self.users[i] == user {
                return Some(i);
            }
            i += 1;
        }
        None
    }

    /// Whether `user` is a member.
    pub fn contains(&self, user: u64) -> (b: bool)
        ensures
            b == self@.contains(user),
    {
        self.find(user).is_some()
    }

    /// Adds `user`; a member stays a member.
    pub fn insert(&mut self, user: u64)
        requires
            old(self).wf(),
        ensures
            final(self).wf(),
            final(self)@ == old(self)@.insert(user),
    {
        let ghost before = self.users@;
        if self.find(user).is_none() {
            self.users.push(user);
            assert(self.users@ == before.push(user));
            assert forall|x: u64| self.users@.contains(x) == (before.contains(x) || x == user) by {
                if before.contains(x) {
                    let j = choose|j: int| 0 <= j < before.len() && before[j] == x;
                    assert(self.users@[j] == x);
                }
                if x == user {
                    assert(self.users@[before.len() as int] == x);
                }
            }
        }
        assert(self@ =~= old(self)@.insert(user));
    }

    /// Removes `user`, if it is a member.
    pub fn remove(&mut self, user: u64)
        requires
            old(self).wf(),
        ensures
            final(self).wf(),
            final(self)@ == old(self)@.remove(user),
    {
        let ghost before = self.users@;
        match self.find(user) {
            Some(i) => {
                self.users.remove(i);
                let ghost shift = |j: int| if j < i { j } else { j + 1 };
                assert forall|j: int| 0 <= j < self.users@.len() implies self.users@[j]
                    == before[shift(j)] by {}
                assert forall|x: u64| self.users@.contains(x) == (before.contains(x) && x
                    != user) by {
                    if self.users@.contains(x) {
                        let j = choose|j: int| 0 <= j < self.users@.len() && self.users@[j] == x;
                        assert(before[shift(j)] == x);
                    }
                    if before.contains(x) && x != user {
                        let j = choose|j: int| 0 <= j < before.len() && before[j] == x;
                        if j < i {
                            assert(self.users@[j] == x);
                        } else {
                            assert(self.users@[j - 1] == x);
                        }
                    }
                }
            },
            None => {},
        }
        assert(self@ =~= old(self)@.remove(user));
    }

    /// Whether the set has no member.
    pub fn is_empty(&self) -> (b: bool)
        ensures
            b == (self@ == Set::<u64>::empty()),
    {
        if self.users.len() == 0 {
            assert(self@ =~= Set::<u64>::empty());
            true
        } else {
            assert(self.users@.contains(self.users@[0]));
            assert(self@.contains(self.users@[0]));
            false
        }
    }

    /// The members, each once.
    pub fn to_vec(&self) -> (members: Vec<u64>)
        requires
            self.wf(),
        ensures
            members@.no_duplicates(),
            members@.to_set() == self@,
    {
        self.users.clone()
    }
}

} // verus!
