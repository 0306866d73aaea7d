//! A minimal growable, indexable sequence container with amortized
//! constant-time append, removal from the end, constant-time indexed
//! reads, and a borrowing forward iterator.
//!
//! The container owns a contiguous backing buffer of exactly `capacity`
//! slots, every slot initialized: the first `len` slots hold the live
//! elements, and every slot past `len` holds a value produced by
//! `T::default()`, so no slot is ever left uninitialized.

use vstd::prelude::*;

mod laws;

pub use laws::capacity_after_appends;
pub use laws::is_pow2;
pub use laws::lemma_append_then_get;
pub use laws::lemma_growth_doubling;
pub use laws::lemma_iteration_yields_in_order;
pub use laws::lemma_push_pop_round_trip;

verus! {

/// A growable vector of `T` backed by a fully initialized buffer.
///
/// `elements` always holds exactly `capacity` slots; the slots at
/// indices `[len, capacity)` are filler values from `T::default()`.
pub struct ToyVec<T> {
    elements: Vec<T>,
    len: usize,
}

/// The capacity a grow step produces: a first slot when there is none,
/// otherwise double the current slot count.
pub open spec fn grown_capacity(cap: nat) -> nat {
    if cap == 0 {
        1
    } else {
        2 * cap
    }
}

impl<T> View for ToyVec<T> {
    type V = Seq<T>;

    /// The live elements, in order: the first `len` slots of the buffer.
    closed spec fn view(&self) -> Seq<T> {
        self.elements@.subrange(0, self.len as int)
    }
}

impl<T> ToyVec<T> {
    /// The number of slots in the backing buffer.
    pub closed spec fn spec_capacity(&self) -> nat {
        self.elements@.len()
    }
}

impl<T: Default> ToyVec<T> {
    /// Well-formedness: the logical length never exceeds the slot count,
    /// and every slot past the logical length holds a value that a call
    /// to `T::default()` could have produced.
    pub closed spec fn wf(&self) -> bool {
        &&& self.len <= self.elements@.len()
        &&& forall|i: int|
            self.len <= i < self.elements@.len() ==> call_ensures(
                T::default,
                (),
                #[trigger] self.elements@[i],
            )
    }

    /// Every well-formed container keeps its logical length at or below
    /// its capacity; all constructors and mutators preserve `wf`.
    pub proof fn lemma_len_le_capacity(&self)
        requires
            self.wf(),
        ensures
            self@.len() <= self.spec_capacity(),
    {
    }

    /// An empty container with no backing storage.
    pub fn new() -> (v: Self)
        ensures
            v.wf(),
            v@ == Seq::<T>::empty(),
            v.spec_capacity() == 0,
    {
        Self::with_capacity(0)
    }

    /// An empty container whose buffer holds exactly `capacity` slots,
    /// each pre-filled with the element type's default value.
    pub fn with_capacity(capacity: usize) -> (v: Self)
        ensures
            v.wf(),
            v@ == Seq::<T>::empty(),
            v.spec_capacity() == capacity,
    {
        let v = Self { elements: Self::allocate_in_heap(capacity), len: 0 };
        proof {
            assert(v@ =~= Seq::<T>::empty());
        }
        v
    }

    /// A fresh buffer of `size` slots, each filled with a default value.
    fn allocate_in_heap(size: usize) -> (buf: Vec<T>)
        ensures
            buf@.len() == size,
            forall|i: int|
                0 <= i < size ==> call_ensures(T::default, (), #[trigger] buf@[i]),
    {
        let mut buf: Vec<T> = Vec::new();
        while buf.len() < size
            invariant
                buf@.len() <= size,
                forall|i: int|
                    0 <= i < buf@.len() ==> call_ensures(T::default, (), #[trigger] buf@[i]),
            decreases size - buf@.len(),
        {
            buf.push(T::default());
        }
        buf
    }

    /// The number of logically present elements.
    pub fn len(&self) -> (n: usize)
        requires
            self.wf(),
        ensures
            n == self@.len(),
    {
        self.len
    }

    /// The current slot count of the backing buffer.
    pub fn capacity(&self) -> (n: usize)
        ensures
            n == self.spec_capacity(),
    {
        self.elements.len()
    }

    /// The element at `index`, or `None` when `index` is at or past the
    /// logical length. Total over every index; never panics.
    pub fn get(&self, index: usize) -> (result: Option<&T>)
        requires
            self.wf(),
        ensures
            index < self@.len() ==> (result matches Some(e) && *e == self@[index as int]),
            index >= self@.len() ==> result is None,
    {
        if index < self.len {
            Some(&self.elements[index])
        } else {
            None
        }
    }

    /// The element at `index`, or `default` when `index` is at or past
    /// the logical length.
    pub fn get_or<'a>(&'a self, index: usize, default: &'a T) -> (result: &'a T)
        requires
            self.wf(),
        ensures
            index < self@.len() ==> *result == self@[index as int],
            index >= self@.len() ==> result == default,
    {
        match self.get(index) {
            Some(e) => e,
            None => default,
        }
    }

    /// Appends `value` at the end, growing the buffer first when it is
    /// full. The capacity is unchanged when a slot was free, and is
    /// taken to `grown_capacity` of the old capacity when none was.
    pub fn push(&mut self, value: T)
        requires
            old(self).wf(),
            old(self)@.len() == old(self).spec_capacity() ==> 2 * old(self).spec_capacity()
                <= usize::MAX,
        ensures
            final(self).wf(),
            final(self)@ == old(self)@.push(value),
            old(self)@.len() < old(self).spec_capacity() ==> final(self).spec_capacity() == old(
                self,
            ).spec_capacity(),
            old(self)@.len() == old(self).spec_capacity() ==> final(self).spec_capacity()
                == grown_capacity(old(self).spec_capacity()),
    {
        if self.len == self.capacity() {
            self.grow();
        }
        self.elements[self.len] = value;
        self.len = self.len + 1;
        proof {
            assert(self@ =~= old(self)@.push(value));
        }
    }

    /// Removes and returns the last element, or `None` when the
    /// container is empty. The vacated slot is refilled with a default
    /// value; the capacity never changes.
    pub fn pop(&mut self) -> (popped: Option<T>)
        requires
            old(self).wf(),
        ensures
            final(self).wf(),
            final(self).spec_capacity() == old(self).spec_capacity(),
            old(self)@.len() == 0 ==> popped is None && final(self)@ == old(self)@,
            old(self)@.len() > 0 ==> (popped matches Some(e) && e == old(self)@.last()
                && final(self)@ == old(self)@.drop_last()),
    {
        if self.len == 0 {
            None
        } else {
            self.len = self.len - 1;
            let mut elem: T = T::default();
            core::mem::swap(&mut elem, &mut self.elements[self.len]);
            proof {
                assert(self@ =~= old(self)@.drop_last());
            }
            Some(elem)
        }
    }

    /// Replaces the buffer with one of `grown_capacity` slots and moves
    /// every live element into its index; slots past the length stay
    /// filled with default values. The view is unchanged.
    fn grow(&mut self)
        requires
            old(self).wf(),
            2 * old(self).spec_capacity() <= usize::MAX,
        ensures
            final(self).wf(),
            final(self)@ == old(self)@,
            final(self).spec_capacity() == grown_capacity(old(self).spec_capacity()),
    {
        if self.capacity() == 0 {
            self.elements = Self::allocate_in_heap(1);
            proof {
                assert(self@ =~= old(self)@);
            }
        } else {
            let new_cap = self.capacity() * 2;
            let mut old_elements = Self::allocate_in_heap(new_cap);
            core::mem::swap(&mut self.elements, &mut old_elements);
            old_elements.truncate(self.len);
            let ghost live = old(self)@;
            let mut j: usize = self.len;
            while j > 0
                invariant
                    j <= self.len,
                    self.len == old(self).len,
                    self.len == live.len(),
                    self.elements@.len() == 2 * old(self).spec_capacity(),
                    live.len() <= self.elements@.len(),
                    old_elements@ == live.subrange(0, j as int),
                    forall|i: int| j <= i < live.len() ==> self.elements@[i] == live[i],
                    forall|i: int|
                        (0 <= i < j || live.len() <= i < self.elements@.len()) ==> call_ensures(
                            T::default,
                            (),
                            #[trigger] self.elements@[i],
                        ),
                decreases j,
            {
                let e = old_elements.pop().unwrap();
                j = j - 1;
                self.elements[j] = e;
                proof {
                    assert(old_elements@ =~= live.subrange(0, j as int));
                }
            }
            proof {
                assert(self@ =~= old(self)@);
            }
        }
    }
}

/// A forward cursor over a container's elements. It borrows the
/// container's buffer immutably for its whole lifetime, with a snapshot
/// of the logical length taken at creation, so the container cannot be
/// mutated out from under it.
pub struct Iter<'vec, T> {
    elements: &'vec Vec<T>,
    len: usize,
    pos: usize,
}

impl<T: Default> ToyVec<T> {
    /// A fresh iterator positioned before the first element.
    pub fn iter<'vec>(&'vec self) -> (it: Iter<'vec, T>)
        requires
            self.wf(),
        ensures
            it.wf(),
            it.remaining() == self@,
    {
        let it = Iter { elements: &self.elements, len: self.len, pos: 0 };
        proof {
            assert(it.remaining() =~= self@);
        }
        it
    }
}

impl<'vec, T> Iter<'vec, T> {
    /// Well-formedness: the cursor never passes the snapshot length,
    /// which never exceeds the borrowed buffer's slot count.
    pub closed spec fn wf(&self) -> bool {
        self.pos <= self.len <= self.elements@.len()
    }

    /// The elements not yet yielded, in the order they will come.
    pub closed spec fn remaining(&self) -> Seq<T> {
        self.elements@.subrange(self.pos as int, self.len as int)
    }

    /// Yields the next element left to right, or `None` once the
    /// snapshot is exhausted; after that every further call keeps
    /// returning `None`.
    pub fn next(&mut self) -> (item: Option<&'vec T>)
        requires
            old(self).wf(),
        ensures
            final(self).wf(),
            old(self).remaining().len() > 0 ==> (item matches Some(e) && *e == old(
                self,
            ).remaining().first() && final(self).remaining() == old(self).remaining().drop_first()),
            old(self).remaining().len() == 0 ==> item is None && final(self).remaining() == old(
                self,
            ).remaining(),
    {
        if self.pos >= self.len {
            None
        } else {
            let res = Some(&self.elements[self.pos]);
            self.pos = self.pos + 1;
            proof {
                assert(self.remaining() =~= old(self).remaining().drop_first());
            }
            res
        }
    }
}

} // verus!
