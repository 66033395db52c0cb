//! Small deterministic containers: an insertion-ordered map with unique keys
//! and a set of identifiers.
use vstd::prelude::*;

verus! {

/// Keys that can be compared in executable code exactly as in specifications.
pub trait MapKey: Sized {
    fn same_key(&self, other: &Self) -> (b: bool)
        ensures
            b == (*self == *other),
    ;
}

impl MapKey for u128 {
    fn same_key(&self, other: &Self) -> (b: bool) {
        *self == *other
    }
}

impl MapKey for Option<u128> {
    fn same_key(&self, other: &Self) -> (b: bool) {
        match (self, other) {
            (None, None) => true,
            (Some(a), Some(b)) => *a == *b,
            _ => false,
        }
    }
}

/// Whether `k` is among the keys of `s`.
pub open spec fn seq_has_key<K, V>(s: Seq<(K, V)>, k: K) -> bool {
    exists|i: int| 0 <= i < s.len() && s[i].0 == k
}

/// The keys of `s` are pairwise distinct.
pub open spec fn keys_unique<K, V>(s: Seq<(K, V)>) -> bool {
    forall|i: int, j: int| 0 <= i < s.len() && 0 <= j < s.len() && i != j ==> s[i].0 != s[j].0
}

/// The position of key `k` in `s`.
pub open spec fn key_pos<K, V>(s: Seq<(K, V)>, k: K) -> int {
    choose|i: int| 0 <= i < s.len() && s[i].0 == k
}

/// The map that an entry sequence with unique keys stands for.
pub open spec fn entries_map<K, V>(s: Seq<(K, V)>) -> Map<K, V> {
    Map::new(|k: K| seq_has_key(s, k), |k: K| s[key_pos(s, k)].1)
}

/// An insertion-ordered map with unique keys.
#[derive(Debug)]
pub struct KeyMap<K, V> {
    entries: Vec<(K, V)>,
}

impl<K, V> KeyMap<K, V> {
    #[verifier::type_invariant]
    spec fn unique(self) -> bool {
        keys_unique(self.entries@)
    }

    /// The entries in insertion order.
    pub closed spec fn entries(self) -> Seq<(K, V)> {
        self.entries@
    }

    /// The map the entries stand for.
    pub closed spec fn view(self) -> Map<K, V> {
        entries_map(self.entries())
    }
}

impl<K: MapKey, V> KeyMap<K, V> {
    /// An empty map.
    pub fn new() -> (m: Self)
        ensures
            m.entries() == Seq::<(K, V)>::empty(),
            m.view() == Map::<K, V>::empty(),
    {
        let m = KeyMap { entries: Vec::new() };
        assert(m.view() =~= Map::<K, V>::empty());
        m
    }

    /// Number of entries.
    pub fn len(&self) -> (n: usize)
        ensures
            n == self.entries().len(),
    {
        self.entries.len()
    }

    /// Whether the map is empty.
    pub fn is_empty(&self) -> (b: bool)
        ensures
            b == (self.entries().len() == 0),
    {
        self.entries.len() == 0
    }

    /// The key at position `i`.
    pub fn key_at(&self, i: usize) -> (k: &K)
        requires
            i < self.entries().len(),
        ensures
            *k == self.entries()[i as int].0,
    {
        &self.entries[i].0
    }

    /// The value at position `i`.
    pub fn value_at(&self, i: usize) -> (v: &V)
        requires
            i < self.entries().len(),
        ensures
            *v == self.entries()[i as int].1,
    {
        &self.entries[i].1
    }

    /// Position of key `k`, if present.
    pub fn find(&self, k: &K) -> (r: Option<usize>)
        ensures
            r is None <==> !seq_has_key(self.entries(), *k),
            r matches Some(i) ==> i < self.entries().len() && self.entries()[i as int].0 == *k
                && i == key_pos(self.entries(), *k),
    {
        proof {
            use_type_invariant(self);
        }
        let mut i: usize = 0;
        while i < self.entries.len()
            invariant
                i <= self.entries@.len(),
                keys_unique(self.entries@),
                forall|j: int| 0 <= j < i ==> self.entries@[j].0 != *k,
            decreases self.entries@.len() - i,
        {
            if self.entries[i].0.same_key(k) {
                let ghost p = key_pos(self.entries@, *k);
                assert(self.entries@[p].0 == *k);
                return Some(i);
            }
            i = i + 1;
        }
        None
    }

    /// Whether `k` is a key.
    pub fn contains_key(&self, k: &K) -> (b: bool)
        ensures
            b == self.view().contains_key(*k),
    {
        self.find(k).is_some()
    }

    /// The value stored under `k`, if any.
    pub fn get(&self, k: &K) -> (r: Option<&V>)
        ensures
            r is Some == self.view().contains_key(*k),
            r matches Some(v) ==> *v == self.view()[*k],
    {
        match self.find(k) {
            Some(i) => Some(&self.entries[i].1),
            None => None,
        }
    }

    /// Stores `v` under `k`: an existing entry keeps its position, a new one
    /// goes last.
    pub fn insert(&mut self, k: K, v: V)
        ensures
            final(self).view() == old(self).view().insert(k, v),
            seq_has_key(old(self).entries(), k) ==> final(self).entries() == old(
                self,
            ).entries().update(key_pos(old(self).entries(), k), (k, v)),
            !seq_has_key(old(self).entries(), k) ==> final(self).entries() == old(
                self,
            ).entries().push((k, v)),
    {
        proof {
            use_type_invariant(&*self);
        }
        let ghost old_e = self.entries@;
        match self.find(&k) {
            Some(i) => {
                let mut ent: Vec<(K, V)> = Vec::new();
                std::mem::swap(&mut ent, &mut self.entries);
                ent.set(i, (k, v));
                proof {
                    let e = ent@;
                    assert(keys_unique(e));
                    assert forall|kk: K| #[trigger] seq_has_key(e, kk) == seq_has_key(old_e, kk)
                        by {
                        if seq_has_key(old_e, kk) {
                            let j = choose|j: int| 0 <= j < old_e.len() && old_e[j].0 == kk;
                            assert(e[j].0 == kk);
                        }
                        if seq_has_key(e, kk) {
                            let j = choose|j: int| 0 <= j < e.len() && e[j].0 == kk;
                            assert(old_e[j].0 == kk);
                        }
                    }
                    assert(entries_map(e) =~= entries_map(old_e).insert(k, v));
                }
                self.entries = ent;
            },
            None => {
                let mut ent: Vec<(K, V)> = Vec::new();
                std::mem::swap(&mut ent, &mut self.entries);
                ent.push((k, v));
                proof {
                    let e = ent@;
                    assert(keys_unique(e));
                    assert forall|kk: K| #[trigger]
                        seq_has_key(e, kk) == (seq_has_key(old_e, kk) || kk == k) by {
                        if seq_has_key(old_e, kk) {
                            let j = choose|j: int| 0 <= j < old_e.len() && old_e[j].0 == kk;
                            assert(e[j].0 == kk);
                        }
                        if kk == k {
                            assert(e[old_e.len() as int].0 == kk);
                        }
                        if seq_has_key(e, kk) && kk != k {
                            let j = choose|j: int| 0 <= j < e.len() && e[j].0 == kk;
                            assert(old_e[j].0 == kk);
                        }
                    }
                    assert forall|kk: K| seq_has_key(old_e, kk) implies key_pos(e, kk) == key_pos(
                        old_e,
                        kk,
                    ) by {
                        let j = key_pos(old_e, kk);
                        assert(e[j].0 == kk);
                    }
                    assert(e[old_e.len() as int].0 == k);
                    assert(key_pos(e, k) == old_e.len());
                    assert(entries_map(e) =~= entries_map(old_e).insert(k, v));
                }
                self.entries = ent;
            },
        }
    }

    /// Removes the entry under `k`, keeping the order of the others.
    pub fn remove(&mut self, k: &K)
        ensures
            final(self).view() == old(self).view().remove(*k),
            seq_has_key(old(self).entries(), *k) ==> final(self).entries() == old(
                self,
            ).entries().remove(key_pos(old(self).entries(), *k)),
            !seq_has_key(old(self).entries(), *k) ==> final(self).entries() == old(
                self,
            ).entries(),
    {
        proof {
            use_type_invariant(&*self);
        }
        let ghost old_e = self.entries@;
        match self.find(k) {
            Some(i) => {
                let mut ent: Vec<(K, V)> = Vec::new();
                std::mem::swap(&mut ent, &mut self.entries);
                ent.remove(i);
                proof {
                    let e = ent@;
                    assert forall|a: int, b: int|
                        0 <= a < e.len() && 0 <= b < e.len() && a != b implies e[a].0 != e[b].0 by {
                        let oa = if a < i { a } else { a + 1 };
                        let ob = if b < i { b } else { b + 1 };
                        assert(e[a] == old_e[oa]);
                        assert(e[b] == old_e[ob]);
                    }
                    assert forall|kk: K| #[trigger]
                        seq_has_key(e, kk) == (seq_has_key(old_e, kk) && kk != *k) by {
                        if seq_has_key(old_e, kk) && kk != *k {
                            let j = choose|j: int| 0 <= j < old_e.len() && old_e[j].0 == kk;
                            if j < i {
                                assert(e[j].0 == kk);
                            } else {
                                assert(e[j - 1].0 == kk);
                            }
                        }
                        if seq_has_key(e, kk) {
                            let j = choose|j: int| 0 <= j < e.len() && e[j].0 == kk;
                            let oj = if j < i { j } else { j + 1 };
                            assert(old_e[oj].0 == kk);
                            assert(oj != i);
                        }
                    }
                    assert forall|kk: K| seq_has_key(e, kk) implies e[key_pos(e, kk)].1 == old_e[key_pos(
                        old_e,
                        kk,
                    )].1 by {
                        let j = key_pos(e, kk);
                        let oj = if j < i { j } else { j + 1 };
                        assert(old_e[oj].0 == kk);
                    }
                    assert(entries_map(e) =~= entries_map(old_e).remove(*k));
                }
                self.entries = ent;
            },
            None => {
                assert(entries_map(old_e) =~= entries_map(old_e).remove(*k));
            },
        }
    }

    /// Removes every entry.
    pub fn clear(&mut self)
        ensures
            final(self).entries() == Seq::<(K, V)>::empty(),
            final(self).view() == Map::<K, V>::empty(),
    {
        self.entries = Vec::new();
        assert(entries_map(self.entries@) =~= Map::<K, V>::empty());
    }

    /// How the map relates to its entries: its keys are the entries' keys and
    /// each key maps to the value of its entry.
    pub fn entry_facts(&self)
        ensures
            forall|k: K| #[trigger] self.view().contains_key(k) <==> exists|j: int|
                0 <= j < self.entries().len() && self.entries()[j].0 == k,
            forall|j: int|
                0 <= j < self.entries().len() ==> self.view().contains_key(#[trigger] self.entries()[j].0)
                    && self.view()[self.entries()[j].0] == self.entries()[j].1,
    {
        proof {
            use_type_invariant(self);
            assert forall|j: int| 0 <= j < self.entries().len() implies self.view().contains_key(
                #[trigger] self.entries()[j].0,
            ) && self.view()[self.entries()[j].0] == self.entries()[j].1 by {
                let k = self.entries()[j].0;
                assert(seq_has_key(self.entries@, k));
                let p = key_pos(self.entries@, k);
                assert(self.entries@[p].0 == k);
            }
        }
    }

    /// Replaces the value at position `i`, keeping its key.
    pub fn set_value_at(&mut self, i: usize, v: V)
        requires
            i < old(self).entries().len(),
        ensures
            final(self).entries() == old(self).entries().update(
                i as int,
                (old(self).entries()[i as int].0, v),
            ),
    {
        proof {
            use_type_invariant(&*self);
        }
        let mut ent: Vec<(K, V)> = Vec::new();
        std::mem::swap(&mut ent, &mut self.entries);
        let k = ent.remove(i);
        ent.insert(i, (k.0, v));
        proof {
            assert(ent@ =~= old(self).entries@.update(i as int, (old(self).entries@[i as int].0, v)));
            assert(keys_unique(ent@)) by {
                assert forall|a: int, b: int|
                    0 <= a < ent@.len() && 0 <= b < ent@.len() && a != b implies ent@[a].0
                    != ent@[b].0 by {
                    assert(ent@[a].0 == old(self).entries@[a].0);
                    assert(ent@[b].0 == old(self).entries@[b].0);
                }
            }
        }
        self.entries = ent;
    }
}

/// A set of identifiers.
#[derive(Debug)]
pub struct IdSet {
    items: Vec<u128>,
}

impl IdSet {
    #[verifier::type_invariant]
    spec fn distinct(self) -> bool {
        self.items@.no_duplicates()
    }

    /// The identifiers in insertion order.
    pub closed spec fn order(&self) -> Seq<u128> {
        self.items@
    }

    /// The order holds no identifier twice, and the set has as many members
    /// as the order has entries.
    pub fn check_order(&self)
        ensures
            self.order().no_duplicates(),
            self.view() == self.order().to_set(),
            self@.finite(),
            self@.len() == self.order().len(),
    {
        proof {
            use_type_invariant(self);
            self.items@.unique_seq_to_set();
            vstd::seq_lib::seq_to_set_is_finite(self.items@);
        }
    }

    /// An empty set.
    pub fn new() -> (s: Self)
        ensures
            s@ == Set::<u128>::empty(),
    {
        let s = IdSet { items: Vec::new() };
        assert(s.items@.to_set() =~= Set::<u128>::empty());
        s
    }

    /// Whether `id` is in the set.
    pub fn contains(&self, id: &u128) -> (b: bool)
        ensures
            b == self@.contains(*id),
    {
        let mut i: usize = 0;
        while i < self.items.len()
            invariant
                i <= self.items@.len(),
                forall|j: int| 0 <= j < i ==> self.items@[j] != *id,
            decreases self.items@.len() - i,
        {
            if self.items[i] == *id {
                return true;
            }
            i = i + 1;
        }
        false
    }

    /// Number of identifiers.
    pub fn len(&self) -> (n: usize)
        ensures
            n == self@.len(),
    {
        self.check_order();
        self.items.len()
    }

    /// Whether the set is empty.
    pub fn is_empty(&self) -> (b: bool)
        ensures
            b == (self@.len() == 0),
    {
        self.check_order();
        self.items.len() == 0
    }

    /// Adds `id`; returns whether it was new.
    pub fn insert(&mut self, id: u128) -> (added: bool)
        ensures
            final(self)@ == old(self)@.insert(id),
            added == !old(self)@.contains(id),
    {
        proof {
            use_type_invariant(&*self);
        }
        if self.contains(&id) {
            assert(self@ =~= self@.insert(id));
            false
        } else {
            let ghost o = self.items@;
            let mut it: Vec<u128> = Vec::new();
            std::mem::swap(&mut it, &mut self.items);
            it.push(id);
            proof {
                assert(it@ == o.push(id));
                assert forall|x: u128| it@.contains(x) == (o.contains(x) || x == id) by {
                    if o.contains(x) {
                        let j = choose|j: int| 0 <= j < o.len() && o[j] == x;
                        assert(it@[j] == x);
                    }
                    if x == id {
                        assert(it@[o.len() as int] == x);
                    }
                    if it@.contains(x) && x != id {
                        let j = choose|j: int| 0 <= j < it@.len() && it@[j] == x;
                        assert(o[j] == x);
                    }
                }
                assert(it@.to_set() =~= o.to_set().insert(id));
                assert(it@.no_duplicates());
            }
            self.items = it;
            true
        }
    }

    /// Removes `id`; returns whether it was present.
    pub fn remove(&mut self, id: &u128) -> (removed: bool)
        ensures
            final(self)@ == old(self)@.remove(*id),
            removed == old(self)@.contains(*id),
    {
        proof {
            use_type_invariant(&*self);
        }
        let ghost o = self.items@;
        let mut i: usize = 0;
        while i < self.items.len()
            invariant
                self.items@ == o,
                old(self).items@ == o,
                o.no_duplicates(),
                i <= o.len(),
                forall|j: int| 0 <= j < i ==> o[j] != *id,
            decreases o.len() - i,
        {
            if self.items[i] == *id {
                let mut it: Vec<u128> = Vec::new();
                std::mem::swap(&mut it, &mut self.items);
                it.remove(i);
                proof {
                    let e = it@;
                    assert(e =~= o.remove(i as int));
                    assert forall|x: u128| e.contains(x) == (o.contains(x) && x != *id) by {
                        if o.contains(x) && x != *id {
                            let j = choose|j: int| 0 <= j < o.len() && o[j] == x;
                            if j < i {
                                assert(e[j] == x);
                            } else {
                                assert(j != i);
                                assert(e[j - 1] == x);
                            }
                        }
                        if e.contains(x) {
                            let j = choose|j: int| 0 <= j < e.len() && e[j] == x;
                            let oj = if j < i { j } else { j + 1 };
                            assert(o[oj] == x);
                        }
                    }
                    assert(e.to_set() =~= o.to_set().remove(*id));
                    assert(e.no_duplicates()) by {
                        assert forall|a: int, b: int|
                            0 <= a < e.len() && 0 <= b < e.len() && a != b implies e[a] != e[b] by {
                            let oa = if a < i { a } else { a + 1 };
                            let ob = if b < i { b } else { b + 1 };
                            assert(e[a] == o[oa]);
                            assert(e[b] == o[ob]);
                        }
                    }
                    assert(o.to_set().contains(*id)) by {
                        assert(o[i as int] == *id);
                    }
                }
                self.items = it;
                assert(self@ == o.to_set().remove(*id));
                assert(old(self)@ == o.to_set());
                return true;
            }
            i = i + 1;
        }
        assert(!o.to_set().contains(*id));
        assert(o.to_set() =~= o.to_set().remove(*id));
        false
    }

    /// Removes every identifier.
    pub fn clear(&mut self)
        ensures
            final(self)@ == Set::<u128>::empty(),
    {
        self.items = Vec::new();
        assert(self.items@.to_set() =~= Set::<u128>::empty());
    }

    /// The identifiers in insertion order.
    pub fn to_vec(&self) -> (v: Vec<u128>)
        ensures
            v@ == self.order(),
    {
        self.items.clone()
    }
}

impl View for IdSet {
    type V = Set<u128>;

    closed spec fn view(&self) -> Set<u128> {
        self.items@.to_set()
    }
}

} // verus!
