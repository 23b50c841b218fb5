//! Sums of integer sequences.

use crate::random::{is_permutation, lemma_permutation_covers, rearranged};
use vstd::prelude::*;

verus! {

/// The sum of a sequence of integers.
pub open spec fn sum(s: Seq<int>) -> int
    decreases s.len(),
{
    if s.len() == 0 {
        0
    } else {
        sum(s.drop_last()) + s.last()
    }
}

/// A sum grows by what is added to the sequence, from nothing on.
pub proof fn law_sum_grows(s: Seq<int>, x: int)
    ensures
        sum(Seq::<int>::empty()) == 0,
        sum(s.push(x)) == sum(s) + x,
{
    assert(s.push(x).drop_last() =~= s);
}

/// Taking one summand out lowers the sum by it.
pub proof fn lemma_sum_remove(s: Seq<int>, k: int)
    requires
        0 <= k < s.len(),
    ensures
        sum(s) == sum(s.remove(k)) + s[k],
    decreases s.len(),
{
    if k == s.len() - 1 {
        assert(s.remove(k) =~= s.drop_last());
    } else {
        lemma_sum_remove(s.drop_last(), k);
        assert(s.remove(k).drop_last() =~= s.drop_last().remove(k));
    }
}

/// The order of the summands does not matter.
pub proof fn lemma_sum_rearranged(s: Seq<int>, order: Seq<int>)
    requires
        is_permutation(order, s.len()),
    ensures
        sum(rearranged(s, order)) == sum(s),
    decreases s.len(),
{
    let n = s.len();
    let r = rearranged(s, order);
    if n > 0 {
        lemma_permutation_covers(order, n);
        assert(order.contains(n - 1));
        let k = choose|k: int| 0 <= k < order.len() && order[k] == n - 1;
        let rest = order.remove(k);
        assert(is_permutation(rest, (n - 1) as nat)) by {
            assert forall|i: int| 0 <= i < n - 1 implies 0 <= #[trigger] rest[i] < n - 1 by {
                let j = if i < k {
                    i
                } else {
                    i + 1
                };
                assert(rest[i] == order[j]);
                assert(order[j] != order[k]);
            }
        }
        lemma_sum_rearranged(s.drop_last(), rest);
        assert(r.remove(k) =~= rearranged(s.drop_last(), rest));
        lemma_sum_remove(r, k);
    }
}

/// The sum of two sequences, one after the other.
pub proof fn lemma_sum_append(a: Seq<int>, b: Seq<int>)
    ensures
        sum(a + b) == sum(a) + sum(b),
    decreases b.len(),
{
    if b.len() == 0 {
        assert(a + b =~= a);
    } else {
        lemma_sum_append(a, b.drop_last());
        assert((a + b).drop_last() =~= a + b.drop_last());
    }
}

/// A sequence of zeros sums to zero.
pub proof fn lemma_sum_zeros(s: Seq<int>)
    requires
        forall|i: int| 0 <= i < s.len() ==> s[i] == 0,
    ensures
        sum(s) == 0,
    decreases s.len(),
{
    if s.len() > 0 {
        lemma_sum_zeros(s.drop_last());
    }
}

} // verus!
