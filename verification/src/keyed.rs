use vstd::prelude::*;

verus! {

/// A key type with finitely many values, each given a distinct slot number.
pub trait SlotKey: Copy + Sized {
    /// The slot number of a key.
    spec fn index_of(self) -> nat;

    /// The number of slots, one per key.
    spec fn slot_count() -> nat;

    /// The key that owns a slot.
    spec fn key_of_slot(i: nat) -> Self;

    fn slot(self) -> (r: usize)
        ensures
            r == self.index_of(),
            r < Self::slot_count(),
    ;

    fn slots() -> (n: usize)
        ensures
            n == Self::slot_count(),
    ;

    fn from_slot(i: usize) -> (k: Self)
        requires
            i < Self::slot_count(),
        ensures
            k == Self::key_of_slot(i as nat),
            k.index_of() == i,
    ;

    proof fn lemma_slots(k: Self)
        ensures
            k.index_of() < Self::slot_count(),
            Self::key_of_slot(k.index_of()) == k,
    ;
}

/// A map from a finite key type to values, stored as one optional value per key.
pub struct KeyedTable<K: SlotKey, V> {
    slots: Vec<Option<V>>,
    marker: core::marker::PhantomData<K>,
}

impl<K: SlotKey, V> KeyedTable<K, V> {
    /// The key/value pairs held by the table.
    pub closed spec fn view(&self) -> Map<K, V> {
        Map::new(
            |k: K| k.index_of() < self.slots@.len() && self.slots@[k.index_of() as int] is Some,
            |k: K| self.slots@[k.index_of() as int]->Some_0,
        )
    }

    /// An empty table.
    pub fn new() -> (t: Self)
        ensures
            t.view() == Map::<K, V>::empty(),
    {
        let n = K::slots();
        let mut slots: Vec<Option<V>> = Vec::new();
        let mut i: usize = 0;
        while i < n
            invariant
                i <= n,
                n == K::slot_count(),
                slots@.len() == i,
                forall|j: int| 0 <= j < i ==> slots@[j] is None,
            decreases n - i,
        {
            slots.push(None);
            i = i + 1;
        }
        let t = KeyedTable { slots, marker: core::marker::PhantomData };
        assert(t.view() =~= Map::<K, V>::empty());
        t
    }

    /// Whether the key has a value.
    pub fn contains_key(&self, k: K) -> (r: bool)
        ensures
            r == self.view().contains_key(k),
    {
        let i = k.slot();
        i < self.slots.len() && self.slots[i].is_some()
    }

    /// Grows the storage so that slot `i` exists, leaving every key's value as it was.
    fn ensure_slot(&mut self, i: usize)
        ensures
            final(self).view() == old(self).view(),
            i < final(self).slots@.len(),
            final(self).slots@.len() >= old(self).slots@.len(),
            forall|j: int| 0 <= j < old(self).slots@.len() ==> final(self).slots@[j] == old(self).slots@[j],
    {
        while self.slots.len() <= i
            invariant
                forall|j: int| 0 <= j < old(self).slots@.len() ==> self.slots@[j] == old(self).slots@[j],
                self.slots@.len() >= old(self).slots@.len(),
                forall|j: int| old(self).slots@.len() <= j < self.slots@.len() ==> self.slots@[j] is None,
            decreases i + 1 - self.slots@.len(),
        {
            self.slots.push(None);
        }
        assert(self.view() =~= old(self).view());
    }

    /// Sets the value of a key, replacing any value it had.
    pub fn insert(&mut self, k: K, v: V)
        ensures
            final(self).view() == old(self).view().insert(k, v),
    {
        let i = k.slot();
        self.ensure_slot(i);
        self.slots.set(i, Some(v));
        proof {
            assert forall|k2: K| #![auto] k2.index_of() == k.index_of() implies k2 == k by {
                K::lemma_slots(k2);
                K::lemma_slots(k);
            }
            assert(self.view() =~= old(self).view().insert(k, v));
        }
    }

    /// Removes the value of a key, if it has one.
    pub fn remove(&mut self, k: K)
        ensures
            final(self).view() == old(self).view().remove(k),
    {
        let i = k.slot();
        if i < self.slots.len() {
            self.slots.set(i, None);
        }
        proof {
            assert forall|k2: K| #![auto] k2.index_of() == k.index_of() implies k2 == k by {
                K::lemma_slots(k2);
                K::lemma_slots(k);
            }
            assert(self.view() =~= old(self).view().remove(k));
        }
    }
}

impl<K: SlotKey, V: Copy> KeyedTable<K, V> {
    /// The value of a key, if it has one.
    pub fn get(&self, k: K) -> (r: Option<V>)
        ensures
            r == (if self.view().contains_key(k) { Some(self.view()[k]) } else { None::<V> }),
    {
        let i = k.slot();
        if i < self.slots.len() {
            self.slots[i]
        } else {
            None
        }
    }
}

impl<K: SlotKey> KeyedTable<K, u64> {
    /// Keeps only the entries whose value is strictly later than `now`.
    pub fn retain_later_than(&mut self, now: u64)
        ensures
            final(self).view() == old(self).view().restrict(
                old(self).view().dom().filter(|k: K| old(self).view()[k] > now),
            ),
    {
        let n = self.slots.len();
        let mut i: usize = 0;
        while i < n
            invariant
                i <= n,
                self.slots@.len() == n,
                old(self).slots@.len() == n,
                forall|j: int|
                    0 <= j < i ==> self.slots@[j] == (match old(self).slots@[j] {
                        Some(t) => if t > now { Some(t) } else { None },
                        None => None,
                    }),
                forall|j: int| i <= j < n ==> self.slots@[j] == old(self).slots@[j],
            decreases n - i,
        {
            let cur = self.slots[i];
            match cur {
                Some(t) => {
                    if t <= now {
                        self.slots.set(i, None);
                    }
                },
                None => {},
            }
            i = i + 1;
        }
        proof {
            assert(self.view() =~= old(self).view().restrict(
                old(self).view().dom().filter(|k: K| old(self).view()[k] > now),
            ));
        }
    }
}

} // verus!
