use vstd::prelude::*;

verus! {

/// A pool of integer-addressed slots with free-list reuse: removing a slot
/// records its index, and the next insertion fills the most recently freed
/// slot before the pool grows. `next_id` names the slot the next insertion
/// will use, deterministically.
#[derive(Debug)]
pub struct Slab<T> {
    pub slots: Vec<Option<T>>,
    pub free: Vec<usize>,
}

impl<T> Slab<T> {
    /// Free-list entries are distinct indices of vacant slots.
    pub open spec fn wf(self) -> bool {
        &&& forall|k: int|
            0 <= k < self.free@.len() ==> #[trigger] self.free@[k] < self.slots@.len()
                && self.slots@[self.free@[k] as int] is None
        &&& forall|k1: int, k2: int|
            0 <= k1 < k2 < self.free@.len() ==> #[trigger] self.free@[k1] != #[trigger] self.free@[k2]
    }

    /// The slot the next insertion will occupy.
    pub open spec fn spec_next_id(self) -> int {
        if self.free@.len() == 0 {
            self.slots@.len() as int
        } else {
            self.free@.last() as int
        }
    }

    pub fn empty() -> (s: Slab<T>)
        ensures
            s.wf(),
            s.slots@.len() == 0,
            s.free@.len() == 0,
    {
        Slab { slots: Vec::new(), free: Vec::new() }
    }

    /// The id the next `insert` will return.
    pub fn next_id(&self) -> (id: usize)
        requires
            self.wf(),
        ensures
            id == self.spec_next_id(),
    {
        if self.free.len() == 0 {
            self.slots.len()
        } else {
            self.free[self.free.len() - 1]
        }
    }

    /// Store `value` in the next free slot and return that slot's id.
    pub fn insert(&mut self, value: T) -> (id: usize)
        requires
            old(self).wf(),
        ensures
            final(self).wf(),
            id == old(self).spec_next_id(),
            id < final(self).slots@.len(),
            old(self).free@.len() == 0 ==> final(self).slots@ == old(self).slots@.push(
                Some(value),
            ) && final(self).free@ == old(self).free@,
            old(self).free@.len() > 0 ==> id < old(self).slots@.len() && old(self).slots@[id as int] is None
                && final(self).slots@ == old(self).slots@.update(id as int, Some(value))
                && final(self).free@ == old(self).free@.drop_last(),
    {
        match self.free.pop() {
            Some(id) => {
                self.slots.set(id, Some(value));
                proof {
                    assert(forall|k: int|
                        0 <= k < self.free@.len() ==> self.free@[k] == old(self).free@[k]);
                }
                id
            },
            None => {
                let id = self.slots.len();
                self.slots.push(Some(value));
                id
            },
        }
    }

    /// Read the slot `id`.
    pub fn get(&self, id: usize) -> (r: Option<&T>)
        ensures
            match r {
                Some(v) => id < self.slots@.len() && self.slots@[id as int] == Some(*v),
                None => id >= self.slots@.len() || self.slots@[id as int] is None,
            },
    {
        if id < self.slots.len() {
            match &self.slots[id] {
                Some(v) => Some(v),
                None => None,
            }
        } else {
            None
        }
    }

    /// Overwrite the occupied slot `id`.
    pub fn replace(&mut self, id: usize, value: T)
        requires
            old(self).wf(),
            id < old(self).slots@.len(),
            old(self).slots@[id as int] is Some,
        ensures
            final(self).wf(),
            final(self).slots@ == old(self).slots@.update(id as int, Some(value)),
            final(self).free@ == old(self).free@,
    {
        self.slots.set(id, Some(value));
    }

    /// Vacate the occupied slot `id` and put it at the head of the free list,
    /// so the next insertion reuses it.
    pub fn remove(&mut self, id: usize) -> (r: T)
        requires
            old(self).wf(),
            id < old(self).slots@.len(),
            old(self).slots@[id as int] is Some,
        ensures
            final(self).wf(),
            Some(r) == old(self).slots@[id as int],
            final(self).slots@ == old(self).slots@.update(id as int, None),
            final(self).free@ == old(self).free@.push(id),
    {
        let value = self.slots.remove(id);
        self.slots.insert(id, None);
        self.free.push(id);
        proof {
            assert(self.slots@ =~= old(self).slots@.update(id as int, None));
            assert forall|k: int|
                0 <= k < self.free@.len() implies #[trigger] self.free@[k] < self.slots@.len()
                    && self.slots@[self.free@[k] as int] is None by {
                if k < old(self).free@.len() {
                    assert(old(self).free@[k] != id);
                }
            }
            assert forall|k1: int, k2: int|
                0 <= k1 < k2 < self.free@.len() implies #[trigger] self.free@[k1]
                    != #[trigger] self.free@[k2] by {
                if k2 == self.free@.len() - 1 {
                    assert(old(self).slots@[old(self).free@[k1] as int] is None);
                }
            }
        }
        match value {
            Some(v) => v,
            None => unreached(),
        }
    }
}

} // verus!
