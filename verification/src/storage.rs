//! The allocation manager: a block of element slots that can be grown.
//!
//! A slot holding `Some` is initialized; a `None` slot stands for
//! uninitialized memory. The manager hands out single-slot read and write
//! primitives plus the two overlapping shifts that positional insertion and
//! removal need, but it has no notion of how many slots its owner regards as
//! occupied.

use vstd::prelude::*;

verus! {

use vstd::pervasive::VecAdditionalExecFns;
use vstd::pervasive::unreached;

/// The capacity produced by one growth step: the first allocation holds
/// exactly one slot; every later step doubles the capacity.
pub open spec fn grown_capacity(cap: nat) -> nat {
    if cap == 0 {
        1
    } else {
        2 * cap
    }
}

/// Owns the backing block. Capacity 0 means no allocation at all; otherwise
/// the block holds exactly `self@.len()` slots.
pub struct RawVec<T> {
    slots: Vec<Option<T>>,
}

impl<T> View for RawVec<T> {
    type V = Seq<Option<T>>;

    closed spec fn view(&self) -> Seq<Option<T>> {
        self.slots@
    }
}

impl<T> RawVec<T> {
    /// Fresh storage: capacity 0 and no allocation. Zero-sized element types
    /// are unsupported, since capacity semantics are meaningless for them.
    pub fn new() -> (r: Self)
        requires
            vstd::layout::size_of::<T>() != 0,
        ensures
            r@ == Seq::<Option<T>>::empty(),
    {
        RawVec { slots: Vec::new() }
    }

    /// An empty block for internal buffers, where the element type has
    /// already been screened by a public constructor.
    pub(crate) fn empty() -> (r: Self)
        ensures
            r@ == Seq::<Option<T>>::empty(),
    {
        RawVec { slots: Vec::new() }
    }

    /// Current capacity: the number of slots the block can hold.
    pub fn capacity(&self) -> (c: usize)
        ensures
            c == self@.len(),
    {
        self.slots.len()
    }

    /// One growth step. Every slot that already existed keeps its contents
    /// (the grown block may live at a new address, but relocation preserves
    /// each slot); the new slots are uninitialized. A step whose requested
    /// capacity exceeds the machine's addressable limit is a fatal condition
    /// and is ruled out here.
    pub fn grow(&mut self)
        requires
            grown_capacity(old(self)@.len()) <= usize::MAX,
        ensures
            final(self)@.len() == grown_capacity(old(self)@.len()),
            forall|i: int| 0 <= i < old(self)@.len() ==> final(self)@[i] == old(self)@[i],
            forall|i: int|
                old(self)@.len() <= i < final(self)@.len() ==> final(self)@[i] is None,
    {
        let cap = self.slots.len();
        let target: usize = if cap == 0 {
            1
        } else {
            cap * 2
        };
        while self.slots.len() < target
            invariant
                old(self)@.len() <= self.slots@.len() <= target,
                target == grown_capacity(old(self)@.len()),
                forall|i: int| 0 <= i < old(self)@.len() ==> self.slots@[i] == old(self)@[i],
                forall|i: int| old(self)@.len() <= i < self.slots@.len() ==> self.slots@[i] is None,
            decreases target - self.slots@.len(),
        {
            self.slots.push(None);
        }
    }

    /// Read the element out of an initialized slot, leaving the slot
    /// uninitialized. The analogue of reading raw memory by value.
    pub(crate) fn take_at(&mut self, i: usize) -> (v: T)
        requires
            i < old(self)@.len(),
            old(self)@[i as int] is Some,
        ensures
            v == old(self)@[i as int].unwrap(),
            final(self)@ == old(self)@.update(i as int, None),
    {
        let mut slot: Option<T> = None;
        self.slots.set_and_swap(i, &mut slot);
        match slot {
            Some(v) => v,
            None => unreached(),
        }
    }

    /// Write an element into an uninitialized slot. The analogue of writing
    /// raw memory without dropping the previous contents.
    pub(crate) fn place_at(&mut self, i: usize, v: T)
        requires
            i < old(self)@.len(),
            old(self)@[i as int] is None,
        ensures
            final(self)@ == old(self)@.update(i as int, Some(v)),
    {
        self.slots.set(i, Some(v));
    }

    /// Borrow the element in an initialized slot.
    pub(crate) fn peek_at(&self, i: usize) -> (r: &T)
        requires
            i < self@.len(),
            self@[i as int] is Some,
        ensures
            *r == self@[i as int].unwrap(),
    {
        match &self.slots[i] {
            Some(r) => r,
            None => unreached(),
        }
    }

    /// Shift the slots in `[i, len - 1)` one position toward higher indices,
    /// opening an uninitialized hole at `i`. The last slot, which the shift
    /// pushes out, must be uninitialized; the capacity is unchanged.
    pub(crate) fn open_slot(&mut self, i: usize)
        requires
            old(self)@.len() > 0,
            i < old(self)@.len(),
            old(self)@.last() is None,
        ensures
            final(self)@.len() == old(self)@.len(),
            forall|j: int| 0 <= j < i ==> final(self)@[j] == old(self)@[j],
            final(self)@[i as int] is None,
            forall|j: int| i < j < final(self)@.len() ==> final(self)@[j] == old(self)@[j - 1],
    {
        self.slots.insert(i, None);
        self.slots.pop();
    }

    /// Shift the slots in `(i, len)` one position toward lower indices,
    /// closing the uninitialized hole at `i`; a fresh uninitialized slot
    /// appears at the end. The capacity is unchanged.
    pub(crate) fn close_slot(&mut self, i: usize)
        requires
            i < old(self)@.len(),
            old(self)@[i as int] is None,
        ensures
            final(self)@.len() == old(self)@.len(),
            forall|j: int| 0 <= j < i ==> final(self)@[j] == old(self)@[j],
            forall|j: int|
                i <= j < final(self)@.len() - 1 ==> final(self)@[j] == old(self)@[j + 1],
            final(self)@.last() is None,
    {
        self.slots.remove(i);
        self.slots.push(None);
    }

    /// Append one slot to the block; used when a traversal buffer is built
    /// element by element.
    pub(crate) fn push_slot(&mut self, v: Option<T>)
        requires
            old(self)@.len() < usize::MAX,
        ensures
            final(self)@ == old(self)@.push(v),
    {
        self.slots.push(v);
    }
}

} // verus!
