//! A slab: slots that hold values under stable indices.
//!
//! A value put into the slab stays at its index until it is taken out.
//! Indices of emptied slots are kept on a free list and handed out again,
//! the one freed last first. When no slot is free the slab doubles in size.

use vstd::prelude::*;

verus! {

/// Mathematical state of a slab.
pub struct SlabState<T> {
    /// The slots, empty or holding a value.
    pub slots: Seq<Option<T>>,
    /// The indices of the empty slots, the next to be handed out last.
    pub free: Seq<usize>,
}

impl<T> SlabState<T> {
    /// The free list names exactly the empty slots, each once.
    pub open spec fn valid(self) -> bool {
        &&& forall|k: int| 0 <= k < self.free.len() ==> (#[trigger] self.free[k]) < self.slots.len()
        &&& forall|k: int|
            0 <= k < self.free.len() ==> self.slots[(#[trigger] self.free[k]) as int] is None
        &&& forall|j: int, k: int|
            0 <= j < k < self.free.len() ==> (#[trigger] self.free[j]) != (#[trigger] self.free[k])
        &&& forall|i: int|
            0 <= i < self.slots.len() && (#[trigger] self.slots[i]) is None ==> exists|k: int|
                0 <= k < self.free.len() && #[trigger] self.free[k] == i
    }

    /// The number of slots after the slab grew once: one slot for an empty
    /// slab, twice as many as before otherwise.
    pub open spec fn grown_len(self) -> int {
        if self.slots.len() == 0 {
            1
        } else {
            2 * (self.slots.len() as int)
        }
    }

    /// The index at which the next value is put.
    pub open spec fn next_index(self) -> int {
        if self.free.len() > 0 {
            self.free.last() as int
        } else {
            self.slots.len() as int
        }
    }

    /// The state after `item` was put in.
    pub open spec fn inserted(self, item: T) -> Self {
        if self.free.len() > 0 {
            SlabState {
                slots: self.slots.update(self.free.last() as int, Some(item)),
                free: self.free.drop_last(),
            }
        } else {
            SlabState {
                slots: Seq::new(
                    self.grown_len() as nat,
                    |i: int|
                        if i < self.slots.len() {
                            self.slots[i]
                        } else if i == self.slots.len() {
                            Some(item)
                        } else {
                            None
                        },
                ),
                free: Seq::new(
                    (self.grown_len() - self.slots.len() - 1) as nat,
                    |k: int| (self.slots.len() + 1 + k) as usize,
                ),
            }
        }
    }

    /// The state after the value at `index` was taken out.
    pub open spec fn removed(self, index: int) -> Self {
        SlabState { slots: self.slots.update(index, None), free: self.free.push(index as usize) }
    }
}

/// Slots of values of type `T` with a free list.
pub struct Slab<T> {
    items: Vec<Option<T>>,
    free: Vec<usize>,
}

impl<T> View for Slab<T> {
    type V = SlabState<T>;

    closed spec fn view(&self) -> SlabState<T> {
        SlabState { slots: self.items@, free: self.free@ }
    }
}

impl<T> Slab<T> {
    /// A slab of `size` empty slots, of which the highest is filled first.
    pub fn new(size: usize) -> (slab: Self)
        ensures
            slab@.valid(),
            slab@.slots == Seq::new(size as nat, |i: int| None::<T>),
            slab@.free == Seq::new(size as nat, |i: int| i as usize),
    {
        let mut items: Vec<Option<T>> = Vec::new();
        let mut free: Vec<usize> = Vec::new();
        let mut i: usize = 0;
        while i < size
            invariant
                i <= size,
                items@ == Seq::new(i as nat, |k: int| None::<T>),
                free@ == Seq::new(i as nat, |k: int| k as usize),
            decreases size - i,
        {
            items.push(None);
            free.push(i);
            i += 1;
            assert(items@ =~= Seq::new(i as nat, |k: int| None::<T>));
            assert(free@ =~= Seq::new(i as nat, |k: int| k as usize));
        }
        let slab = Slab { items, free };
        proof {
            assert forall|n: int| 0 <= n < slab@.slots.len() && (#[trigger] slab@.slots[n])
                is None implies exists|k: int|
                0 <= k < slab@.free.len() && #[trigger] slab@.free[k] == n by {
                assert(slab@.free[n] == n);
            }
        }
        slab
    }

    /// Number of slots, empty or not.
    pub fn capacity(&self) -> (n: usize)
        ensures
            n == self@.slots.len(),
    {
        self.items.len()
    }

    /// Whether the slot `index` holds a value.
    pub fn contains(&self, index: usize) -> (held: bool)
        ensures
            held == (index < self@.slots.len() && self@.slots[index as int] is Some),
    {
        index < self.items.len() && self.items[index].is_some()
    }

    /// Puts `item` into a free slot and returns the slot's index: the slot
    /// freed last, or the first slot of the new half if the slab had to
    /// grow.
    pub fn insert(&mut self, item: T) -> (index: usize)
        requires
            old(self)@.valid(),
            old(self)@.free.len() == 0 ==> old(self)@.grown_len() <= usize::MAX,
        ensures
            index == old(self)@.next_index(),
            final(self)@ == old(self)@.inserted(item),
            final(self)@.valid(),
            final(self)@.slots[index as int] == Some(item),
            forall|i: int|
                0 <= i < old(self)@.slots.len() && i != index ==> final(self)@.slots[i] == old(
                    self,
                )@.slots[i],
    {
        let ghost before = self@;
        match self.free.pop() {
            Some(index) => {
                proof {
                    assert(before.free[before.free.len() - 1] == index);
                    assert(self.free@ =~= before.free.drop_last());
                }
                self.items[index] = Some(item);
                proof {
                    assert(self@.slots =~= before.slots.update(index as int, Some(item)));
                    assert forall|i: int|
                        0 <= i < self@.slots.len() && (#[trigger] self@.slots[i])
                            is None implies exists|k: int|
                        0 <= k < self@.free.len() && #[trigger] self@.free[k] == i by {
                        assert(before.slots[i] is None);
                        let k = choose|k: int| 0 <= k < before.free.len() && before.free[k] == i;
                        assert(self@.free[k] == i);
                    }
                }
                index
            },
            None => {
                let len: usize = self.items.len();
                let new_len: usize = if len == 0 {
                    1
                } else {
                    2 * len
                };
                proof {
                    assert(before.free =~= Seq::<usize>::empty());
                    assert forall|i: int| 0 <= i < before.slots.len() implies before.slots[i]
                        is Some by {
                        if before.slots[i] is None {
                            let k = choose|k: int|
                                0 <= k < before.free.len() && before.free[k] == i;
                        }
                    }
                }
                self.items.push(Some(item));
                let mut i: usize = len + 1;
                while i < new_len
                    invariant
                        len + 1 <= i <= new_len,
                        self.items@.len() == i,
                        self.items@.take(len as int) == before.slots,
                        self.items@[len as int] == Some(item),
                        forall|n: int| len < n < i ==> self.items@[n] is None,
                        self.free@ == Seq::new((i - len - 1) as nat, |k: int| (len + 1 + k) as usize),
                    decreases new_len - i,
                {
                    self.items.push(None);
                    self.free.push(i);
                    i += 1;
                    assert(self.items@.take(len as int) =~= before.slots);
                    assert(self.free@ =~= Seq::new(
                        (i - len - 1) as nat,
                        |k: int| (len + 1 + k) as usize,
                    ));
                }
                proof {
                    let after = before.inserted(item);
                    assert(self@.slots =~= after.slots) by {
                        assert forall|n: int| 0 <= n < self@.slots.len() implies self@.slots[n]
                            == after.slots[n] by {
                            if n < len {
                                assert(self.items@.take(len as int)[n] == before.slots[n]);
                            }
                        }
                    }
                    assert(self@.free =~= after.free);
                    assert forall|n: int|
                        0 <= n < self@.slots.len() && (#[trigger] self@.slots[n])
                            is None implies exists|k: int|
                        0 <= k < self@.free.len() && #[trigger] self@.free[k] == n by {
                        if n < len {
                            assert(self.items@.take(len as int)[n] == before.slots[n]);
                        }
                        assert(self@.free[n - len - 1] == n);
                    }
                }
                len
            },
        }
    }

    /// Takes the value out of the slot `index`, which must hold one, and
    /// puts the slot on the free list.
    pub fn remove(&mut self, index: usize) -> (item: T)
        requires
            old(self)@.valid(),
            index < old(self)@.slots.len(),
            old(self)@.slots[index as int] is Some,
        ensures
            Some(item) == old(self)@.slots[index as int],
            final(self)@ == old(self)@.removed(index as int),
            final(self)@.valid(),
    {
        let ghost before = self@;
        let mut slot: Option<T> = None;
        std::mem::swap(&mut self.items[index], &mut slot);
        self.free.push(index);
        proof {
            assert(self@.slots =~= before.slots.update(index as int, None));
            assert forall|k: int| 0 <= k < self@.free.len() implies self@.slots[(
            #[trigger] self@.free[k]) as int] is None by {
                if k < before.free.len() {
                    assert(before.slots[before.free[k] as int] is None);
                }
            }
            assert forall|j: int, k: int| 0 <= j < k < self@.free.len() implies (
            #[trigger] self@.free[j]) != (#[trigger] self@.free[k]) by {
                if k == before.free.len() {
                    assert(before.slots[before.free[j] as int] is None);
                }
            }
            assert forall|i: int|
                0 <= i < self@.slots.len() && (#[trigger] self@.slots[i]) is None implies exists|
                k: int,
            |
                0 <= k < self@.free.len() && #[trigger] self@.free[k] == i by {
                if i == index {
                    assert(self@.free[before.free.len() as int] == i);
                } else {
                    assert(before.slots[i] is None);
                    let k = choose|k: int| 0 <= k < before.free.len() && before.free[k] == i;
                    assert(self@.free[k] == i);
                }
            }
        }
        slot.unwrap()
    }
}

/// What is put into the slab comes out of it again: the index that
/// `insert` returns holds the value until it is removed, and removing it
/// yields that value and frees the index for the next insertion.
pub proof fn lemma_insert_then_remove<T>(slab: SlabState<T>, item: T)
    requires
        slab.valid(),
        slab.slots.len() <= usize::MAX,
    ensures
        slab.inserted(item).slots[slab.next_index()] == Some(item),
        slab.inserted(item).removed(slab.next_index()).slots[slab.next_index()] is None,
        slab.inserted(item).removed(slab.next_index()).next_index() == slab.next_index(),
        slab.free.len() > 0 ==> slab.inserted(item).removed(slab.next_index()) == slab,
{
    if slab.free.len() > 0 {
        let index = slab.free.last() as int;
        assert(slab.free[slab.free.len() - 1] == index);
        assert(slab.slots[index] is None);
        assert(slab.slots.update(index, Some(item)).update(index, None) =~= slab.slots);
        assert(slab.free.drop_last().push(index as usize) =~= slab.free);
    }
}

} // verus!
