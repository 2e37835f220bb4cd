//! A keyed store of records, in which a key is written at most once per
//! insertion and an insertion never overwrites.
use vstd::prelude::*;
use crate::address::Address;

verus! {

/// Records keyed by address, kept in insertion order.
pub struct AccountStore<V> {
    entries: Vec<(Address, V)>,
    contents: Ghost<Map<Address, V>>,
}

impl<V> View for AccountStore<V> {
    type V = Map<Address, V>;

    closed spec fn view(&self) -> Map<Address, V> {
        self.contents@
    }
}

impl<V> AccountStore<V> {
    /// The entries in insertion order.
    pub closed spec fn entries_spec(&self) -> Seq<(Address, V)> {
        self.entries@
    }

    /// The entries' keys are distinct, and the map view holds exactly them.
    pub closed spec fn wf(&self) -> bool {
        &&& forall|i: int, j: int|
            0 <= i < self.entries@.len() && 0 <= j < self.entries@.len() && i != j
                ==> (#[trigger] self.entries@[i]).0 != (#[trigger] self.entries@[j]).0
        &&& forall|i: int|
            0 <= i < self.entries@.len() ==> self.contents@.contains_key(
                (#[trigger] self.entries@[i]).0,
            ) && self.contents@[self.entries@[i].0] == self.entries@[i].1
        &&& forall|k: Address|
            #[trigger] self.contents@.contains_key(k) ==> exists|i: int|
                0 <= i < self.entries@.len() && (#[trigger] self.entries@[i]).0 == k
    }

    /// An empty store.
    pub fn new() -> (r: AccountStore<V>)
        ensures
            r.wf(),
            r@ == Map::<Address, V>::empty(),
            r.entries_spec() == Seq::<(Address, V)>::empty(),
    {
        AccountStore { entries: Vec::new(), contents: Ghost(Map::empty()) }
    }

    /// The number of records.
    pub fn len(&self) -> (r: usize)
        ensures
            r == self.entries_spec().len(),
    {
        self.entries.len()
    }

    /// The entry at position `i` in insertion order.
    pub fn entry(&self, i: usize) -> (r: &(Address, V))
        requires
            i < self.entries_spec().len(),
        ensures
            *r == self.entries_spec()[i as int],
    {
        &self.entries[i]
    }

    fn find(&self, key: &Address) -> (r: Option<usize>)
        requires
            self.wf(),
        ensures
            match r {
                Some(i) => i < self.entries@.len() && self.entries@[i as int].0 == *key,
                None => !self@.contains_key(*key),
            },
    {
        let mut i: usize = 0;
        while i < self.entries.len()
            invariant
                self.wf(),
                0 <= i <= self.entries@.len(),
                forall|j: int| 0 <= j < i ==> (#[trigger] self.entries@[j]).0 != *key,
            decreases self.entries@.len() - i,
        {
            if self.entries[i].0.equals(key) {
                return Some(i);
            }
            i = i + 1;
        }
        None
    }

    /// Whether a record stands at `key`.
    pub fn contains(&self, key: &Address) -> (r: bool)
        requires
            self.wf(),
        ensures
            r == self@.contains_key(*key),
    {
        self.find(key).is_some()
    }

    /// The record at `key`, if any.
    pub fn get(&self, key: &Address) -> (r: Option<&V>)
        requires
            self.wf(),
        ensures
            match r {
                Some(v) => self@.contains_key(*key) && *v == self@[*key],
                None => !self@.contains_key(*key),
            },
    {
        match self.find(key) {
            Some(i) => Some(&self.entries[i].1),
            None => None,
        }
    }

    /// Writes `value` at `key` if no record stands there; returns whether it did.
    /// A new record goes after all the others.
    pub fn insert_if_absent(&mut self, key: Address, value: V) -> (r: bool)
        requires
            old(self).wf(),
        ensures
            final(self).wf(),
            r == !old(self)@.contains_key(key),
            r ==> final(self)@ == old(self)@.insert(key, value),
            r ==> final(self).entries_spec() == old(self).entries_spec().push((key, value)),
            !r ==> *final(self) == *old(self),
    {
        if self.find(&key).is_some() {
            return false;
        }
        let ghost old_entries = self.entries@;
        let ghost old_contents = self.contents@;
        self.entries.push((key, value));
        self.contents = Ghost(self.contents@.insert(key, value));
        assert forall|k: Address| #[trigger] self.contents@.contains_key(k) implies exists|i: int|
            0 <= i < self.entries@.len() && (#[trigger] self.entries@[i]).0 == k by {
            if k == key {
                assert(self.entries@[old_entries.len() as int].0 == k);
            } else {
                assert(old_contents.contains_key(k));
                let i = choose|i: int| 0 <= i < old_entries.len() && (#[trigger] old_entries[i]).0 == k;
                assert(self.entries@[i].0 == k);
            }
        }
        true
    }

    /// Writes `value` at `key`, in place of the record there if there is one.
    pub fn upsert(&mut self, key: Address, value: V)
        requires
            old(self).wf(),
        ensures
            final(self).wf(),
            final(self)@ == old(self)@.insert(key, value),
    {
        match self.find(&key) {
            Some(i) => {
                let ghost old_entries = self.entries@;
                let ghost old_contents = self.contents@;
                self.entries.set(i, (key, value));
                self.contents = Ghost(self.contents@.insert(key, value));
                assert forall|k: Address| #[trigger] self.contents@.contains_key(k) implies exists|j: int|
                    0 <= j < self.entries@.len() && (#[trigger] self.entries@[j]).0 == k by {
                    if k == key {
                        assert(self.entries@[i as int].0 == k);
                    } else {
                        assert(old_contents.contains_key(k));
                        let j = choose|j: int| 0 <= j < old_entries.len() && (#[trigger] old_entries[j]).0 == k;
                        assert(self.entries@[j].0 == k);
                    }
                }
            },
            None => {
                self.insert_if_absent(key, value);
            },
        }
    }
}

} // verus!
