//! The consumption protocols: a bidirectional cursor over a block of
//! initialized slots, the consuming iterator that owns the storage taken
//! from a sequence, and the draining extractor that yields the elements
//! moved out of a sequence whose allocation stays behind for reuse.
//!
//! Each pull hands ownership of one element to the caller and trims that
//! slot out of the live region; elements never yielded are dropped, exactly
//! once, when the protocol value itself is dropped.

use vstd::prelude::*;

verus! {

use crate::storage::RawVec;

/// The bidirectional cursor: a front and a back boundary over a block whose
/// slots between the boundaries are initialized. The front boundary is the
/// next slot to yield forward; the back boundary is one past the next slot
/// to yield backward. The boundaries meet exactly when the cursor is
/// exhausted.
pub(crate) struct RawIter<T> {
    buf: RawVec<T>,
    front: usize,
    back: usize,
}

impl<T> View for RawIter<T> {
    type V = Seq<T>;

    closed spec fn view(&self) -> Seq<T> {
        Seq::new((self.back - self.front) as nat, |i: int| self.buf@[self.front + i].unwrap())
    }
}

impl<T> RawIter<T> {
    /// The front boundary never passes the back one, both lie within the
    /// block, and every slot between them is initialized.
    pub(crate) closed spec fn wf(self) -> bool {
        &&& self.front <= self.back <= self.buf@.len()
        &&& forall|i: int| self.front <= i < self.back ==> self.buf@[i] is Some
    }

    /// A cursor over the first `len` slots of a block, all of them
    /// initialized.
    pub(crate) fn new(buf: RawVec<T>, len: usize) -> (r: Self)
        requires
            len <= buf@.len(),
            forall|i: int| 0 <= i < len ==> buf@[i] is Some,
        ensures
            r.wf(),
            r@ == Seq::new(len as nat, |i: int| buf@[i].unwrap()),
    {
        RawIter { buf, front: 0, back: len }
    }

    /// Advance the front boundary and yield the element that was there, or
    /// `None` once the boundaries have met.
    pub(crate) fn next(&mut self) -> (r: Option<T>)
        requires
            old(self).wf(),
        ensures
            final(self).wf(),
            old(self)@.len() == 0 ==> r is None && final(self)@ == old(self)@,
            old(self)@.len() > 0 ==> r == Some(old(self)@.first()) && final(self)@ == old(
                self,
            )@.drop_first(),
    {
        if self.front == self.back {
            None
        } else {
            let v = self.buf.take_at(self.front);
            self.front = self.front + 1;
            Some(v)
        }
    }

    /// Retreat the back boundary and yield the element that was there, or
    /// `None` once the boundaries have met.
    pub(crate) fn next_back(&mut self) -> (r: Option<T>)
        requires
            old(self).wf(),
        ensures
            final(self).wf(),
            old(self)@.len() == 0 ==> r is None && final(self)@ == old(self)@,
            old(self)@.len() > 0 ==> r == Some(old(self)@.last()) && final(self)@ == old(
                self,
            )@.drop_last(),
    {
        if self.front == self.back {
            None
        } else {
            self.back = self.back - 1;
            let v = self.buf.take_at(self.back);
            Some(v)
        }
    }

    /// The exact number of elements still to be yielded, as a lower and an
    /// upper bound.
    pub(crate) fn size_hint(&self) -> (r: (usize, Option<usize>))
        requires
            self.wf(),
        ensures
            r.0 == self@.len(),
            r.1 == Some(r.0),
    {
        let len = self.back - self.front;
        (len, Some(len))
    }
}

/// The consuming iterator: created by converting a sequence into it, a
/// one-way move that takes over the sequence's storage. It yields owned
/// elements from either end; whatever it never yields is dropped with it.
pub struct IntoIter<T> {
    iter: RawIter<T>,
}

impl<T> View for IntoIter<T> {
    type V = Seq<T>;

    closed spec fn view(&self) -> Seq<T> {
        self.iter@
    }
}

impl<T> IntoIter<T> {
    /// Well-formedness, carried over from the cursor.
    pub closed spec fn wf(self) -> bool {
        self.iter.wf()
    }

    /// Wrap a cursor that has taken over a sequence's storage.
    pub(crate) fn from_raw(iter: RawIter<T>) -> (r: Self)
        requires
            iter.wf(),
        ensures
            r.wf(),
            r@ == iter@,
    {
        IntoIter { iter }
    }

    /// Pull the next element from the front, or `None` once exhausted.
    pub fn next(&mut self) -> (r: Option<T>)
        requires
            old(self).wf(),
        ensures
            final(self).wf(),
            old(self)@.len() == 0 ==> r is None && final(self)@ == old(self)@,
            old(self)@.len() > 0 ==> r == Some(old(self)@.first()) && final(self)@ == old(
                self,
            )@.drop_first(),
    {
        self.iter.next()
    }

    /// Pull the next element from the back, or `None` once exhausted.
    pub fn next_back(&mut self) -> (r: Option<T>)
        requires
            old(self).wf(),
        ensures
            final(self).wf(),
            old(self)@.len() == 0 ==> r is None && final(self)@ == old(self)@,
            old(self)@.len() > 0 ==> r == Some(old(self)@.last()) && final(self)@ == old(
                self,
            )@.drop_last(),
    {
        self.iter.next_back()
    }

    /// The exact number of elements still to be yielded.
    pub fn size_hint(&self) -> (r: (usize, Option<usize>))
        requires
            self.wf(),
        ensures
            r.0 == self@.len(),
            r.1 == Some(r.0),
    {
        self.iter.size_hint()
    }
}

/// The draining extractor: created by borrowing a sequence, whose length is
/// set to 0 at that moment while its allocation stays untouched. It yields
/// the moved-out elements from either end; whatever it never yields is
/// dropped with it, and the sequence remains valid and reusable with its
/// original capacity.
pub struct Drain<T> {
    iter: RawIter<T>,
}

impl<T> View for Drain<T> {
    type V = Seq<T>;

    closed spec fn view(&self) -> Seq<T> {
        self.iter@
    }
}

impl<T> Drain<T> {
    /// Well-formedness, carried over from the cursor.
    pub closed spec fn wf(self) -> bool {
        self.iter.wf()
    }

    /// Wrap a cursor over the elements moved out of a sequence.
    pub(crate) fn from_raw(iter: RawIter<T>) -> (r: Self)
        requires
            iter.wf(),
        ensures
            r.wf(),
            r@ == iter@,
    {
        Drain { iter }
    }

    /// Pull the next element from the front, or `None` once exhausted.
    pub fn next(&mut self) -> (r: Option<T>)
        requires
            old(self).wf(),
        ensures
            final(self).wf(),
            old(self)@.len() == 0 ==> r is None && final(self)@ == old(self)@,
            old(self)@.len() > 0 ==> r == Some(old(self)@.first()) && final(self)@ == old(
                self,
            )@.drop_first(),
    {
        self.iter.next()
    }

    /// Pull the next element from the back, or `None` once exhausted.
    pub fn next_back(&mut self) -> (r: Option<T>)
        requires
            old(self).wf(),
        ensures
            final(self).wf(),
            old(self)@.len() == 0 ==> r is None && final(self)@ == old(self)@,
            old(self)@.len() > 0 ==> r == Some(old(self)@.last()) && final(self)@ == old(
                self,
            )@.drop_last(),
    {
        self.iter.next_back()
    }

    /// The exact number of elements still to be yielded.
    pub fn size_hint(&self) -> (r: (usize, Option<usize>))
        requires
            self.wf(),
        ensures
            r.0 == self@.len(),
            r.1 == Some(r.0),
    {
        self.iter.size_hint()
    }
}

} // verus!
