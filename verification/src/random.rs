//! The random number generator, and what is drawn from it.

use rand::rngs::StdRng;
use rand::seq::SliceRandom;
use rand_core::RngCore;
use vstd::prelude::*;

verus! {

/// The generator that all randomness is drawn from. Its state is opaque.
#[verifier::external_type_specification]
#[verifier::external_body]
pub struct ExStdRng(rand::rngs::StdRng);

/// What was drawn, and the generator in the state after it.
pub struct Drawn<T> {
    pub value: T,
    pub rng: StdRng,
}

/// `order` lists each of the positions below `n` exactly once.
pub open spec fn is_permutation(order: Seq<int>, n: nat) -> bool {
    &&& order.len() == n
    &&& forall|i: int| 0 <= i < n ==> 0 <= #[trigger] order[i] < n
    &&& forall|i: int, j: int|
        0 <= i < n && 0 <= j < n && i != j ==> #[trigger] order[i] != #[trigger] order[j]
}

/// The items in the order in which `order` lists their positions.
pub open spec fn rearranged<T>(items: Seq<T>, order: Seq<int>) -> Seq<T> {
    Seq::new(order.len(), |i: int| items[order[i]])
}

/// The same items, each of them once, in some order.
pub open spec fn is_shuffled<T>(items: Seq<T>, shuffled: Seq<T>) -> bool {
    exists|order: Seq<int>| #[trigger]
        is_permutation(order, items.len()) && shuffled == rearranged(items, order)
}

/// `StdRng::clone`: a generator in the same state.
pub assume_specification[ <rand::rngs::StdRng as Clone>::clone ](
    rng: &rand::rngs::StdRng,
) -> (copy: rand::rngs::StdRng)
    ensures
        copy == *rng,
;

/// `rand::seq::SliceRandom::shuffle`: swaps items of the slice pairwise, so that
/// whatever was drawn, every item is still there once. Which order comes out is
/// left to chance, and nothing is claimed of it.
#[verifier::external_body]
pub(crate) fn draw_order<T>(items: Vec<T>, rng: StdRng) -> (drawn: Drawn<Vec<T>>)
    ensures
        is_shuffled(items@, drawn.value@),
{
    let mut items = items;
    let mut rng = rng;
    items.shuffle(&mut rng);
    Drawn { value: items, rng }
}

/// Shuffling the items with a generator in the state `before` gives them in the order
/// of `shuffled`, and leaves the generator in the state `after`.
pub open(crate) spec fn shuffle_drawn<T>(
    before: StdRng,
    items: Vec<T>,
    shuffled: Vec<T>,
    after: StdRng,
) -> bool {
    call_ensures(draw_order::<T>, (items, before), Drawn { value: shuffled, rng: after })
}

/// Shuffles items. As with every draw, it is made on a copy that then takes the place of
/// the generator: so the states before and after it can be named.
pub(crate) fn shuffle<T>(items: Vec<T>, rng: &mut StdRng) -> (shuffled: Vec<T>)
    ensures
        is_shuffled(items@, shuffled@),
        shuffle_drawn(*old(rng), items, shuffled, *final(rng)),
        call_ensures(
            draw_order::<T>,
            (items, *old(rng)),
            (Drawn { value: shuffled, rng: *final(rng) }),
        ),
{
    let drawn = draw_order(items, rng.clone());
    *rng = drawn.rng;
    drawn.value
}

/// `rand_core::RngCore::fill_bytes` on a fresh array. Nothing is claimed of the
/// bytes.
#[verifier::external_body]
pub(crate) fn draw_bytes<const N: usize>(rng: StdRng) -> (drawn: Drawn<[u8; N]>) {
    let mut rng = rng;
    let mut bytes = [0u8; N];
    rng.fill_bytes(&mut bytes);
    Drawn { value: bytes, rng }
}

/// A generator in the state `before` gives these bytes, and is in the state `after`
/// then.
pub open(crate) spec fn bytes_drawn<const N: usize>(
    before: StdRng,
    bytes: [u8; N],
    after: StdRng,
) -> bool {
    call_ensures(draw_bytes::<N>, (before,), Drawn { value: bytes, rng: after })
}

/// Draws bytes.
pub(crate) fn random_bytes<const N: usize>(rng: &mut StdRng) -> (bytes: [u8; N])
    ensures
        bytes_drawn(*old(rng), bytes, *final(rng)),
        call_ensures(draw_bytes::<N>, (*old(rng),), (Drawn { value: bytes, rng: *final(rng) })),
{
    let drawn = draw_bytes::<N>(rng.clone());
    *rng = drawn.rng;
    drawn.value
}

/// Bytes that count as drawn are what filling an array from the generator gave.
pub(crate) proof fn law_bytes_are_drawn<const N: usize>(
    before: StdRng,
    bytes: [u8; N],
    after: StdRng,
)
    requires
        bytes_drawn(before, bytes, after),
    ensures
        call_ensures(draw_bytes::<N>, (before,), (Drawn { value: bytes, rng: after })),
{
}

/// Items that count as shuffled are what shuffling with the generator gave: each of them is
/// still there, and nothing else is.
pub(crate) proof fn law_order_is_drawn<T>(
    before: StdRng,
    items: Vec<T>,
    shuffled: Vec<T>,
    after: StdRng,
)
    requires
        shuffle_drawn(before, items, shuffled, after),
    ensures
        call_ensures(
            draw_order::<T>,
            (items, before),
            (Drawn { value: shuffled, rng: after }),
        ),
        shuffled@.len() == items@.len(),
        forall|i: int| 0 <= i < items@.len() ==> shuffled@.contains(#[trigger] items@[i]),
        forall|i: int| 0 <= i < items@.len() ==> items@.contains(#[trigger] shuffled@[i]),
{
    assert(is_shuffled(items@, shuffled@));
    let order = choose|order: Seq<int>| #[trigger]
        is_permutation(order, items@.len()) && shuffled@ == rearranged(items@, order);
    lemma_permutation_covers(order, items@.len());
    assert forall|i: int| 0 <= i < items@.len() implies shuffled@.contains(
        #[trigger] items@[i],
    ) by {
        assert(order.contains(i));
        let k = choose|k: int| 0 <= k < order.len() && order[k] == i;
        assert(shuffled@[k] == items@[i]);
    }
    assert forall|i: int| 0 <= i < items@.len() implies items@.contains(
        #[trigger] shuffled@[i],
    ) by {
        assert(0 <= order[i] < items@.len());
    }
}

/// A permutation has every position in its list.
pub proof fn lemma_permutation_covers(order: Seq<int>, n: nat)
    requires
        is_permutation(order, n),
    ensures
        forall|p: int| 0 <= p < n ==> #[trigger] order.contains(p),
{
    let positions = Set::new(|p: int| 0 <= p < n);
    let listed = order.to_set();
    vstd::set_lib::lemma_int_range(0, n as int);
    assert(positions =~= vstd::set_lib::set_int_range(0, n as int));
    order.unique_seq_to_set();
    assert(listed.subset_of(positions)) by {
        assert forall|p: int| listed.contains(p) implies positions.contains(p) by {
            assert(order.contains(p));
            let i = choose|i: int| 0 <= i < order.len() && order[i] == p;
            assert(0 <= order[i] < n);
        }
    }
    vstd::set_lib::lemma_subset_equality(listed, positions);
    assert forall|p: int| 0 <= p < n implies #[trigger] order.contains(p) by {
        assert(positions.contains(p));
        assert(listed.contains(p));
    }
}

} // verus!
