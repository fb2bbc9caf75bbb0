//! The container: a storage block together with a count of occupied slots.
//!
//! The central invariant is that exactly the slots below the length hold an
//! initialized element. Every operation preserves it, so no uninitialized
//! slot is ever read or exposed, and no initialized one is forgotten.

use vstd::prelude::*;

verus! {

use crate::storage::RawVec;
use crate::storage::grown_capacity;
use crate::traverse::Drain;
use crate::traverse::IntoIter;
use crate::traverse::RawIter;

/// A growable sequence of owned elements. The view of a value is the
/// mathematical sequence of its initialized elements, in slot order.
pub struct Vec<T> {
    buf: RawVec<T>,
    len: usize,
}

impl<T> View for Vec<T> {
    type V = Seq<T>;

    closed spec fn view(&self) -> Seq<T> {
        Seq::new(self.len as nat, |i: int| self.buf@[i].unwrap())
    }
}

impl<T> Vec<T> {
    /// Well-formedness: the length never exceeds the capacity, the slots
    /// below the length are initialized, and the slots at or above it are
    /// uninitialized. Constructors establish it and every operation
    /// preserves it.
    pub closed spec fn wf(self) -> bool {
        &&& self.len <= self.buf@.len()
        &&& forall|i: int| 0 <= i < self.len ==> self.buf@[i] is Some
        &&& forall|i: int| self.len <= i < self.buf@.len() ==> self.buf@[i] is None
    }

    /// The number of slots the backing block can hold.
    pub closed spec fn spec_capacity(self) -> nat {
        self.buf@.len()
    }

    /// In every well-formed state the length lies between zero and the
    /// capacity.
    pub proof fn lemma_length_within_capacity(&self)
        requires
            self.wf(),
        ensures
            0 <= self@.len() <= self.spec_capacity(),
    {
    }

    /// An empty sequence with capacity 0 and no allocation. Zero-sized
    /// element types are unsupported.
    pub fn new() -> (r: Self)
        requires
            vstd::layout::size_of::<T>() != 0,
        ensures
            r.wf(),
            r@ == Seq::<T>::empty(),
            r.spec_capacity() == 0,
    {
        Vec { buf: RawVec::new(), len: 0 }
    }

    /// Current capacity, for introspection.
    pub fn capacity(&self) -> (c: usize)
        ensures
            c == self.spec_capacity(),
    {
        self.buf.capacity()
    }

    /// Number of elements held.
    pub fn len(&self) -> (l: usize)
        ensures
            l == self@.len(),
    {
        self.len
    }

    /// One growth step of the backing block: the elements and the length are
    /// unchanged, the capacity becomes `grown_capacity` of the old capacity.
    pub fn grow(&mut self)
        requires
            old(self).wf(),
            grown_capacity(old(self).spec_capacity()) <= usize::MAX,
        ensures
            final(self).wf(),
            final(self)@ == old(self)@,
            final(self).spec_capacity() == grown_capacity(old(self).spec_capacity()),
    {
        self.buf.grow();
    }

    /// Append an element, growing the storage first when it is full.
    pub fn push(&mut self, elem: T)
        requires
            old(self).wf(),
            old(self)@.len() == old(self).spec_capacity() ==> grown_capacity(
                old(self).spec_capacity(),
            ) <= usize::MAX,
        ensures
            final(self).wf(),
            final(self)@ == old(self)@.push(elem),
            final(self).spec_capacity() == (if old(self)@.len() < old(self).spec_capacity() {
                old(self).spec_capacity()
            } else {
                grown_capacity(old(self).spec_capacity())
            }),
    {
        if self.len == self.buf.capacity() {
            self.buf.grow();
        }
        self.buf.place_at(self.len, elem);
        self.len = self.len + 1;
    }

    /// Remove and return the last element; on an empty sequence there is
    /// nothing to remove and `None` is returned. The capacity is unchanged.
    pub fn pop(&mut self) -> (r: Option<T>)
        requires
            old(self).wf(),
        ensures
            final(self).wf(),
            final(self).spec_capacity() == old(self).spec_capacity(),
            old(self)@.len() == 0 ==> r is None && final(self)@ == old(self)@,
            old(self)@.len() > 0 ==> r == Some(old(self)@.last()) && final(self)@ == old(
                self,
            )@.drop_last(),
    {
        if self.len == 0 {
            None
        } else {
            self.len = self.len - 1;
            let v = self.buf.take_at(self.len);
            Some(v)
        }
    }

    /// Insert an element at `index`, shifting the elements at and above it
    /// one position up. An index beyond the length is a caller error and is
    /// ruled out here.
    pub fn insert(&mut self, index: usize, elem: T)
        requires
            old(self).wf(),
            index <= old(self)@.len(),
            old(self)@.len() == old(self).spec_capacity() ==> grown_capacity(
                old(self).spec_capacity(),
            ) <= usize::MAX,
        ensures
            final(self).wf(),
            final(self)@ == old(self)@.insert(index as int, elem),
            final(self).spec_capacity() == (if old(self)@.len() < old(self).spec_capacity() {
                old(self).spec_capacity()
            } else {
                grown_capacity(old(self).spec_capacity())
            }),
    {
        if self.len == self.buf.capacity() {
            self.buf.grow();
        }
        if index < self.len {
            self.buf.open_slot(index);
        }
        self.buf.place_at(index, elem);
        self.len = self.len + 1;
    }

    /// Remove and return the element at `index`, shifting the elements above
    /// it one position down. An index at or beyond the length is a caller
    /// error and is ruled out here. The capacity is unchanged.
    pub fn remove(&mut self, index: usize) -> (r: T)
        requires
            old(self).wf(),
            index < old(self)@.len(),
        ensures
            final(self).wf(),
            final(self).spec_capacity() == old(self).spec_capacity(),
            r == old(self)@[index as int],
            final(self)@ == old(self)@.remove(index as int),
    {
        let v = self.buf.take_at(index);
        self.buf.close_slot(index);
        self.len = self.len - 1;
        v
    }

    /// Borrow the element at `index`.
    pub fn get(&self, index: usize) -> (r: &T)
        requires
            self.wf(),
            index < self@.len(),
        ensures
            *r == self@[index as int],
    {
        self.buf.peek_at(index)
    }

    /// Replace the element at `index`, dropping the previous one.
    pub fn set(&mut self, index: usize, elem: T)
        requires
            old(self).wf(),
            index < old(self)@.len(),
        ensures
            final(self).wf(),
            final(self).spec_capacity() == old(self).spec_capacity(),
            final(self)@ == old(self)@.update(index as int, elem),
    {
        let _previous = self.buf.take_at(index);
        self.buf.place_at(index, elem);
    }

    /// Convert the sequence into its consuming iterator. Ownership of the
    /// storage moves into the iterator; the sequence itself is gone
    /// afterwards, so its destructor can never touch the elements again.
    pub fn into_iter(self) -> (r: IntoIter<T>)
        requires
            self.wf(),
        ensures
            r.wf(),
            r@ == self@,
    {
        let Vec { buf, len } = self;
        IntoIter::from_raw(RawIter::new(buf, len))
    }

    /// Borrow the sequence into a draining extractor. The length is set to 0
    /// before anything else happens, so that however the extractor is used
    /// or abandoned, the sequence's own destructor sees no element twice;
    /// the allocation is untouched and the sequence is immediately reusable
    /// with its original capacity.
    pub fn drain(&mut self) -> (r: Drain<T>)
        requires
            old(self).wf(),
        ensures
            final(self).wf(),
            final(self)@ == Seq::<T>::empty(),
            final(self).spec_capacity() == old(self).spec_capacity(),
            r.wf(),
            r@ == old(self)@,
    {
        let ghost orig = self@;
        let ghost cap = self.buf@.len();
        let count = self.len;
        self.len = 0;
        let mut taken: RawVec<T> = RawVec::empty();
        let mut i: usize = 0;
        while i < count
            invariant
                i <= count,
                count == orig.len(),
                self.len == 0,
                self.buf@.len() == cap,
                count <= cap,
                forall|j: int| 0 <= j < i ==> (#[trigger] self.buf@[j]) is None,
                forall|j: int| i <= j < count ==> (#[trigger] self.buf@[j]) is Some,
                forall|j: int| i <= j < count ==> (#[trigger] self.buf@[j]).unwrap() == orig[j],
                forall|j: int| count <= j < cap ==> (#[trigger] self.buf@[j]) is None,
                taken@.len() == i,
                forall|j: int| 0 <= j < i ==> (#[trigger] taken@[j]) is Some,
                forall|j: int| 0 <= j < i ==> (#[trigger] taken@[j]).unwrap() == orig[j],
            decreases count - i,
        {
            let v = self.buf.take_at(i);
            taken.push_slot(Some(v));
            i = i + 1;
        }
        Drain::from_raw(RawIter::new(taken, count))
    }
}

} // verus!
