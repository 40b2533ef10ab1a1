use vstd::prelude::*;
use crate::attributes::{EntityId, MissingAttribute};

verus! {

/// Values of one attribute kind, held in a slot per entity index.
pub struct AttributeStore<T> {
    slots: Vec<Option<T>>,
}

impl<T> View for AttributeStore<T> {
    type V = Map<usize, T>;

    /// The entity indices that carry a value, and their values.
    closed spec fn view(&self) -> Map<usize, T> {
        Map::new(
            |i: usize| i < self.slots@.len() && self.slots@[i as int] is Some,
            |i: usize| self.slots@[i as int]->Some_0,
        )
    }
}

impl<T> AttributeStore<T> {
    pub fn new() -> (r: Self)
        ensures
            r@ == Map::<usize, T>::empty(),
    {
        let r = AttributeStore { slots: Vec::new() };
        assert(r@ =~= Map::<usize, T>::empty());
        r
    }

    /// Stores `value` for `e`, replacing any earlier value.
    pub fn set(&mut self, e: EntityId, value: T)
        ensures
            final(self)@ == old(self)@.insert(e.0, value),
    {
        let ghost before = self.slots@;
        while self.slots.len() <= e.0
            invariant
                self.slots@.len() <= e.0 + 1 || self.slots@.len() == before.len(),
                before.len() <= self.slots@.len(),
                forall|i: int| 0 <= i < before.len() ==> self.slots@[i] == before[i],
                forall|i: int| before.len() <= i < self.slots@.len() ==> self.slots@[i] is None,
            decreases e.0 + 1 - self.slots@.len(),
        {
            self.slots.push(None);
        }
        self.slots.set(e.0, Some(value));
        assert(self@ =~= old(self)@.insert(e.0, value));
    }

    /// The value stored for `e`, or `MissingAttribute` where it has none.
    pub fn get(&self, e: EntityId) -> (r: Result<&T, MissingAttribute>)
        ensures
            match r {
                Ok(v) => self@.contains_key(e.0) && *v == self@[e.0],
                Err(m) => !self@.contains_key(e.0) && m.entity == e,
            },
    {
        if e.0 < self.slots.len() {
            match &self.slots[e.0] {
                Some(v) => Ok(v),
                None => Err(MissingAttribute { entity: e }),
            }
        } else {
            Err(MissingAttribute { entity: e })
        }
    }

    /// Whether `e` carries a value here.
    pub fn contains(&self, e: EntityId) -> (r: bool)
        ensures
            r == self@.contains_key(e.0),
    {
        e.0 < self.slots.len() && self.slots[e.0].is_some()
    }

    /// The entities that carry a value, in ascending order of index.
    pub fn entities(&self) -> (r: Vec<EntityId>)
        ensures
            forall|k: int| 0 <= k < r@.len() ==> self@.contains_key(#[trigger] r@[k].0),
            forall|i: usize| self@.contains_key(i) ==> exists|k: int| 0 <= k < r@.len() && #[trigger] r@[k].0 == i,
            forall|a: int, b: int| 0 <= a < b < r@.len() ==> r@[a].0 < r@[b].0,
    {
        let mut r: Vec<EntityId> = Vec::new();
        let mut i: usize = 0;
        while i < self.slots.len()
            invariant
                i <= self.slots@.len(),
                forall|k: int| 0 <= k < r@.len() ==> self@.contains_key(#[trigger] r@[k].0) && r@[k].0 < i,
                forall|j: usize| j < i && self@.contains_key(j) ==> exists|k: int| 0 <= k < r@.len() && #[trigger] r@[k].0 == j,
                forall|a: int, b: int| 0 <= a < b < r@.len() ==> r@[a].0 < r@[b].0,
            decreases self.slots@.len() - i,
        {
            let ghost prev = r@;
            if self.slots[i].is_some() {
                r.push(EntityId(i));
            }
            proof {
                assert forall|j: usize| j < i + 1 && self@.contains_key(j) implies exists|k: int|
                    0 <= k < r@.len() && #[trigger] r@[k].0 == j by {
                    if j == i {
                        assert(r@[r@.len() - 1].0 == j);
                    } else {
                        let k = choose|k: int| 0 <= k < prev.len() && #[trigger] prev[k].0 == j;
                        assert(r@[k] == prev[k]);
                    }
                }
            }
            i = i + 1;
        }
        r
    }
}

} // verus!
