use vstd::prelude::*;

use crate::codec::bytes_equal;

verus! {

/// A map from byte-string keys to values, holding each key at most once.
pub struct KeyedTable<V> {
    entries: Vec<(Vec<u8>, V)>,
}

impl<V: View> KeyedTable<V> {
    /// Whether some entry holds key `k`.
    pub closed spec fn has(&self, k: Seq<u8>) -> bool {
        exists|i: int| 0 <= i < self.entries@.len() && #[trigger] self.entries@[i].0@ == k
    }

    /// The position of the entry holding key `k`.
    closed spec fn index_of(&self, k: Seq<u8>) -> int {
        choose|i: int| 0 <= i < self.entries@.len() && #[trigger] self.entries@[i].0@ == k
    }
}

impl<V> KeyedTable<V> {
    /// No key is held twice.
    #[verifier::type_invariant]
    closed spec fn keys_unique(&self) -> bool {
        forall|i: int, j: int|
            0 <= i < self.entries@.len() && 0 <= j < self.entries@.len() && i != j
                ==> #[trigger] self.entries@[i].0@ != #[trigger] self.entries@[j].0@
    }
}

impl<V: View> View for KeyedTable<V> {
    type V = Map<Seq<u8>, V::V>;

    closed spec fn view(&self) -> Map<Seq<u8>, V::V> {
        Map::new(|k: Seq<u8>| self.has(k), |k: Seq<u8>| self.entries@[self.index_of(k)].1@)
    }
}

impl<V: View> KeyedTable<V> {
    /// An empty table.
    pub fn new() -> (r: KeyedTable<V>)
        ensures
            r@ == Map::<Seq<u8>, V::V>::empty(),
    {
        let r = KeyedTable { entries: Vec::new() };
        assert(r@ =~= Map::<Seq<u8>, V::V>::empty());
        r
    }

    /// The position of the entry holding `key`, if any.
    fn position(&self, key: &[u8]) -> (r: Option<usize>)
        ensures
            r is Some <==> self@.contains_key(key@),
            r matches Some(i) ==> i < self.entries@.len() && self.entries@[i as int].0@ == key@
                && self@[key@] == self.entries@[i as int].1@,
    {
        proof {
            use_type_invariant(self);
        }
        let mut i: usize = 0;
        while i < self.entries.len()
            invariant
                i <= self.entries@.len(),
                self.keys_unique(),
                forall|j: int| 0 <= j < i ==> #[trigger] self.entries@[j].0@ != key@,
            decreases self.entries@.len() - i,
        {
            if bytes_equal(self.entries[i].0.as_slice(), key) {
                proof {
                    assert(self.entries@[i as int].0@ == key@);
                    assert(self.has(key@));
                    let c = self.index_of(key@);
                    assert(self.entries@[c].0@ == key@);
                    assert(c == i as int);
                }
                return Some(i);
            }
            i = i + 1;
        }
        None
    }

    /// The value stored under `key`, if any.
    pub fn get(&self, key: &[u8]) -> (r: Option<&V>)
        ensures
            r is Some <==> self@.contains_key(key@),
            r matches Some(v) ==> v@ == self@[key@],
    {
        match self.position(key) {
            Some(i) => Some(&self.entries[i].1),
            None => None,
        }
    }

    /// Removes the entry of `key`; returns whether there was one.
    pub fn remove(&mut self, key: &[u8]) -> (r: bool)
        ensures
            r == old(self)@.contains_key(key@),
            final(self)@ == old(self)@.remove(key@),
    {
        proof {
            use_type_invariant(&*self);
        }
        let pos = self.position(key);
        let ghost old_entries = self.entries@;
        let ghost old_view = self@;
        match pos {
            None => {
                assert(old_view.remove(key@) =~= old_view);
                false
            },
            Some(i) => {
                let mut entries: Vec<(Vec<u8>, V)> = Vec::new();
                std::mem::swap(&mut entries, &mut self.entries);
                entries.remove(i);
                proof {
                    assert forall|a: int, b: int|
                        0 <= a < entries@.len() && 0 <= b < entries@.len() && a != b implies
                        #[trigger] entries@[a].0@ != #[trigger] entries@[b].0@ by {
                        let oa = if a < i { a } else { a + 1 };
                        let ob = if b < i { b } else { b + 1 };
                        assert(entries@[a] == old_entries[oa]);
                        assert(entries@[b] == old_entries[ob]);
                    }
                }
                std::mem::swap(&mut entries, &mut self.entries);
                proof {
                    let new_entries = self.entries@;
                    assert forall|kk: Seq<u8>| #[trigger] self@.contains_key(kk)
                        == old_view.remove(key@).contains_key(kk) by {
                        if self.has(kk) {
                            let c = self.index_of(kk);
                            let oc = if c < i { c } else { c + 1 };
                            assert(new_entries[c] == old_entries[oc]);
                            assert(old_entries[oc].0@ == kk);
                            assert(oc != i as int);
                        }
                        if kk != key@ && old_view.contains_key(kk) {
                            let c = choose|c: int|
                                0 <= c < old_entries.len() && #[trigger] old_entries[c].0@ == kk;
                            assert(c != i as int);
                            let nc = if c < i { c } else { c - 1 };
                            assert(new_entries[nc] == old_entries[c]);
                            assert(new_entries[nc].0@ == kk);
                        }
                    }
                    assert forall|kk: Seq<u8>| #[trigger] self@.contains_key(kk) implies self@[kk]
                        == old_view.remove(key@)[kk] by {
                        let c = self.index_of(kk);
                        let oc = if c < i { c } else { c + 1 };
                        assert(new_entries[c] == old_entries[oc]);
                        assert(old_entries[oc].0@ == kk);
                        let d = choose|d: int|
                            0 <= d < old_entries.len() && #[trigger] old_entries[d].0@ == kk;
                        assert(d == oc);
                    }
                    assert(self@ =~= old_view.remove(key@));
                }
                true
            },
        }
    }

    /// Stores `value` under `key`, replacing what was stored there.
    pub fn insert(&mut self, key: &[u8], value: V)
        ensures
            final(self)@ == old(self)@.insert(key@, value@),
    {
        proof {
            use_type_invariant(&*self);
        }
        let pos = self.position(key);
        let k = crate::codec::copy_bytes(key);
        let ghost old_entries = self.entries@;
        let ghost old_view = self@;
        let ghost vv = value@;
        let mut entries: Vec<(Vec<u8>, V)> = Vec::new();
        std::mem::swap(&mut entries, &mut self.entries);
        match pos {
            Some(i) => {
                entries.set(i, (k, value));
                proof {
                    assert forall|a: int, b: int|
                        0 <= a < entries@.len() && 0 <= b < entries@.len() && a != b implies
                        #[trigger] entries@[a].0@ != #[trigger] entries@[b].0@ by {
                        if a != i && b != i {
                            assert(entries@[a] == old_entries[a]);
                            assert(entries@[b] == old_entries[b]);
                        } else if a == i {
                            assert(old_entries[a].0@ == key@);
                            assert(entries@[b] == old_entries[b]);
                        } else {
                            assert(old_entries[b].0@ == key@);
                            assert(entries@[a] == old_entries[a]);
                        }
                    }
                }
            },
            None => {
                entries.push((k, value));
                proof {
                    assert forall|a: int, b: int|
                        0 <= a < entries@.len() && 0 <= b < entries@.len() && a != b implies
                        #[trigger] entries@[a].0@ != #[trigger] entries@[b].0@ by {
                        let n = old_entries.len() as int;
                        if a < n && b < n {
                            assert(entries@[a] == old_entries[a]);
                            assert(entries@[b] == old_entries[b]);
                        } else if a == n {
                            assert(entries@[b] == old_entries[b]);
                            assert(!old_view.contains_key(key@));
                            assert(!(old_entries[b].0@ == key@));
                        } else {
                            assert(entries@[a] == old_entries[a]);
                            assert(!old_view.contains_key(key@));
                            assert(!(old_entries[a].0@ == key@));
                        }
                    }
                }
            },
        }
        std::mem::swap(&mut entries, &mut self.entries);
        proof {
            let new_entries = self.entries@;
            assert forall|kk: Seq<u8>| #[trigger] self@.contains_key(kk) == old_view.insert(
                key@,
                vv,
            ).contains_key(kk) by {
                if kk != key@ {
                    if self.has(kk) {
                        let c = self.index_of(kk);
                        assert(old_entries[c].0@ == kk);
                    }
                    if old_view.contains_key(kk) {
                        let c = choose|c: int|
                            0 <= c < old_entries.len() && #[trigger] old_entries[c].0@ == kk;
                        assert(new_entries[c].0@ == kk);
                    }
                } else {
                    match pos {
                        Some(i) => assert(new_entries[i as int].0@ == key@),
                        None => assert(new_entries[old_entries.len() as int].0@ == key@),
                    }
                }
            }
            assert forall|kk: Seq<u8>| #[trigger] self@.contains_key(kk) implies self@[kk]
                == old_view.insert(key@, vv)[kk] by {
                let c = self.index_of(kk);
                assert(new_entries[c].0@ == kk);
                if kk != key@ {
                    assert(old_entries[c].0@ == kk);
                    assert(new_entries[c] == old_entries[c]);
                    let d = choose|d: int|
                        0 <= d < old_entries.len() && #[trigger] old_entries[d].0@ == kk;
                    assert(d == c);
                } else {
                    match pos {
                        Some(i) => assert(c == i as int),
                        None => assert(c == old_entries.len() as int),
                    }
                }
            }
            assert(self@ =~= old_view.insert(key@, vv));
        }
    }
}

} // verus!

verus! {

/// A value that can be copied into a fresh value with the same view.
pub trait Duplicate: View + Sized {
    /// A copy of this value.
    fn duplicate(&self) -> (r: Self)
        ensures
            r@ == self@,
    ;
}

impl Duplicate for Vec<u8> {
    fn duplicate(&self) -> (r: Vec<u8>) {
        crate::codec::copy_bytes(self.as_slice())
    }
}

impl<V: Duplicate> KeyedTable<V> {
    /// A copy of this table.
    pub fn duplicate(&self) -> (r: KeyedTable<V>)
        ensures
            r@ == self@,
    {
        proof {
            use_type_invariant(self);
        }
        let mut entries: Vec<(Vec<u8>, V)> = Vec::new();
        let mut i: usize = 0;
        while i < self.entries.len()
            invariant
                i <= self.entries@.len(),
                entries@.len() == i,
                forall|j: int|
                    0 <= j < i ==> (#[trigger] entries@[j]).0@ == self.entries@[j].0@
                        && entries@[j].1@ == self.entries@[j].1@,
            decreases self.entries@.len() - i,
        {
            let k = crate::codec::copy_bytes(self.entries[i].0.as_slice());
            let v = self.entries[i].1.duplicate();
            entries.push((k, v));
            i = i + 1;
        }
        let r = KeyedTable { entries };
        proof {
            assert forall|j: int| 0 <= j < r.entries@.len() implies #[trigger] r.entries@[j].0@
                == self.entries@[j].0@ by {
                assert(entries@[j].0@ == self.entries@[j].0@);
            }
            assert forall|kk: Seq<u8>| #[trigger] r@.contains_key(kk) == self@.contains_key(kk) by {
                if r.has(kk) {
                    let c = r.index_of(kk);
                    assert(self.entries@[c].0@ == kk);
                }
                if self.has(kk) {
                    let c = self.index_of(kk);
                    assert(r.entries@[c].0@ == kk);
                }
            }
            assert forall|kk: Seq<u8>| #[trigger] r@.contains_key(kk) implies r@[kk] == self@[kk] by {
                let c = r.index_of(kk);
                assert(self.entries@[c].0@ == kk);
                let d = self.index_of(kk);
                assert(self.entries@[d].0@ == kk);
                assert(c == d);
                assert(entries@[c].1@ == self.entries@[c].1@);
            }
            assert(r@ =~= self@);
        }
        r
    }
}

} // verus!
