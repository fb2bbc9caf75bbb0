//! The algebraic properties that tie the container's operations together.
//!
//! The operations' own contracts describe one call each, over the sequence
//! view; the lemmas here state what follows for combinations of calls:
//! growth from empty storage doubles through the powers of two, append and
//! remove-last are inverses, positional insert and remove are inverses, and
//! the two traversal directions between them yield every element exactly
//! once.

use vstd::prelude::*;

verus! {

use vstd::arithmetic::power2::lemma2_to64;
use vstd::arithmetic::power2::lemma_pow2_pos;
use vstd::arithmetic::power2::lemma_pow2_unfold;
use vstd::arithmetic::power2::pow2;
use crate::storage::grown_capacity;

/// The capacity reached after `n` growth steps applied to fresh storage of
/// capacity 0, as each step's contract describes it.
pub open spec fn capacity_after_growths(n: nat) -> nat
    decreases n,
{
    if n == 0 {
        0
    } else {
        grown_capacity(capacity_after_growths((n - 1) as nat))
    }
}

/// Growth doubling: starting from capacity 0, successive growth steps reach
/// the capacities 1, 2, 4, 8, ...; the `n`-th step reaches two to the power
/// `n - 1`.
pub proof fn lemma_growth_doubling(n: nat)
    requires
        1 <= n,
    ensures
        capacity_after_growths(n) == pow2((n - 1) as nat),
    decreases n,
{
    if n == 1 {
        assert(capacity_after_growths(0) == 0);
        lemma2_to64();
    } else {
        lemma_growth_doubling((n - 1) as nat);
        lemma_pow2_pos((n - 2) as nat);
        lemma_pow2_unfold((n - 1) as nat);
    }
}

/// Append/remove-last duality, one step: removing the last element right
/// after appending `v` to a sequence in state `s` yields `v` back and
/// restores `s`.
pub proof fn lemma_append_remove_last_duality<T>(s: Seq<T>, v: T)
    ensures
        s.push(v).len() == s.len() + 1,
        s.push(v).last() == v,
        s.push(v).drop_last() == s,
{
    assert(s.push(v).drop_last() =~= s);
}

/// Append/remove-last duality, iterated: after `k` removals from the back
/// of a sequence that held the values `s`, the state holds the first
/// `s.len() - k` of them, and the next removal yields the value appended at
/// position `s.len() - 1 - k`. So `s.len()` removals return the appended
/// values in reverse order, after which the state is empty and a further
/// removal finds nothing.
pub proof fn lemma_remove_last_reverses<T>(s: Seq<T>, k: int)
    requires
        0 <= k < s.len(),
    ensures
        s.take(s.len() - k).last() == s[s.len() - 1 - k],
        s.take(s.len() - k).drop_last() == s.take(s.len() - k - 1),
{
    assert(s.take(s.len() - k).drop_last() =~= s.take(s.len() - k - 1));
}

/// Insert/remove inverse: inserting `v` at index `i` and immediately
/// removing at index `i` returns `v` and restores the prior length and
/// element order.
pub proof fn lemma_insert_remove_inverse<T>(s: Seq<T>, i: int, v: T)
    requires
        0 <= i <= s.len(),
    ensures
        s.insert(i, v).len() == s.len() + 1,
        s.insert(i, v)[i] == v,
        s.insert(i, v).remove(i) == s,
{
    assert(s.insert(i, v).remove(i) =~= s);
}

/// Traversal completeness: a forward pull takes exactly the first element
/// and leaves all others, and a backward pull takes exactly the last and
/// leaves all others. However forward and backward pulls are interleaved,
/// each pull splits one element off the remainder, so a traversal run to
/// exhaustion yields every element exactly once, with no overlap between
/// the two ends.
pub proof fn lemma_traversal_partition<T>(s: Seq<T>)
    requires
        s.len() > 0,
    ensures
        seq![s.first()] + s.drop_first() == s,
        s.drop_last() + seq![s.last()] == s,
        s.drop_first().len() == s.len() - 1,
        s.drop_last().len() == s.len() - 1,
{
    assert(seq![s.first()] + s.drop_first() =~= s);
    assert(s.drop_last() + seq![s.last()] =~= s);
}

} // verus!
