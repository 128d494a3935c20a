use vstd::prelude::*;
use crate::bytes::bytes_equal;

verus! {

/// A key that can be compared with another by the value it stands for.
pub trait TableKey: View + Sized {
    fn same_key(&self, other: &Self) -> (r: bool)
        ensures
            r == (self@ == other@),
    ;
}

impl TableKey for u64 {
    fn same_key(&self, other: &u64) -> (r: bool) {
        *self == *other
    }
}

impl TableKey for Vec<u8> {
    fn same_key(&self, other: &Vec<u8>) -> (r: bool) {
        bytes_equal(self, other)
    }
}

impl TableKey for (Vec<u8>, u64) {
    fn same_key(&self, other: &(Vec<u8>, u64)) -> (r: bool) {
        bytes_equal(&self.0, &other.0) && self.1 == other.1
    }
}

/// A key-value store: each key at most once, read and written by key.
pub struct Table<K: TableKey, V: View> {
    entries: Vec<(K, V)>,
    contents: Ghost<Map<K::V, V::V>>,
}

impl<K: TableKey, V: View> View for Table<K, V> {
    type V = Map<K::V, V::V>;

    closed spec fn view(&self) -> Map<K::V, V::V> {
        self.contents@
    }
}

impl<K: TableKey, V: View> Table<K, V> {
    /// The table is well formed: its entries hold each key once, and hold
    /// exactly what its contents map says.
    pub closed spec fn wf(&self) -> bool {
        &&& forall|i: int, j: int|
            0 <= i < self.entries@.len() && 0 <= j < self.entries@.len() && i != j
                ==> self.entries@[i].0@ != self.entries@[j].0@
        &&& forall|i: int|
            #![trigger self.entries@[i]]
            0 <= i < self.entries@.len() ==> self.contents@.contains_key(self.entries@[i].0@)
                && self.contents@[self.entries@[i].0@] == self.entries@[i].1@
        &&& forall|k: K::V|
            #![trigger self.contents@.contains_key(k)]
            self.contents@.contains_key(k) ==> exists|i: int|
                0 <= i < self.entries@.len() && self.entries@[i].0@ == k
    }

    pub fn new() -> (r: Self)
        ensures
            r.wf(),
            r@ == Map::<K::V, V::V>::empty(),
    {
        Table { entries: Vec::new(), contents: Ghost(Map::empty()) }
    }

    fn find(&self, k: &K) -> (r: Option<usize>)
        requires
            self.wf(),
        ensures
            match r {
                Some(i) => i < self.entries@.len() && self.entries@[i as int].0@ == k@,
                None => !self@.contains_key(k@),
            },
    {
        let mut i: usize = 0;
        while i < self.entries.len()
            invariant
                self.wf(),
                0 <= i <= self.entries@.len(),
                forall|j: int| 0 <= j < i ==> self.entries@[j].0@ != k@,
            decreases self.entries@.len() - i,
        {
            if self.entries[i].0.same_key(k) {
                return Some(i);
            }
            i = i + 1;
        }
        None
    }

    /// Looks up the value stored under `k`.
    pub fn get(&self, k: &K) -> (r: Option<&V>)
        requires
            self.wf(),
        ensures
            match r {
                Some(v) => self@.contains_key(k@) && v@ == self@[k@],
                None => !self@.contains_key(k@),
            },
    {
        match self.find(k) {
            Some(i) => {
                assert(self.entries@[i as int].0@ == k@);
                Some(&self.entries[i].1)
            },
            None => None,
        }
    }

    /// Stores `v` under `k`, in place of any value held there before.
    pub fn insert(&mut self, k: K, v: V)
        requires
            old(self).wf(),
        ensures
            final(self).wf(),
            final(self)@ == old(self)@.insert(k@, v@),
    {
        let ghost kv = k@;
        let ghost vv = v@;
        let ghost m = self.contents@.insert(kv, vv);
        let ghost w: int;
        match self.find(&k) {
            Some(i) => {
                self.entries.set(i, (k, v));
                proof { w = i as int; }
            },
            None => {
                self.entries.push((k, v));
                proof { w = old(self).entries@.len() as int; }
            },
        }
        assert(self.entries@[w].0@ == kv);
        self.contents = Ghost(m);
        assert forall|key: K::V| #[trigger] m.contains_key(key) implies exists|j: int|
            0 <= j < self.entries@.len() && self.entries@[j].0@ == key by {
            if key != kv {
                assert(old(self).contents@.contains_key(key));
                let j = choose|j: int| 0 <= j < old(self).entries@.len() && old(self).entries@[j].0@ == key;
                assert(self.entries@[j].0@ == key);
            } else {
                assert(self.entries@[w].0@ == key);
            }
        }
    }
}

} // verus!
