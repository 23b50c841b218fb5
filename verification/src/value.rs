//! Note values, their sums, and the commitments to them.

use crate::point::{
    add_points, combination, identity, is_point, multiply, point_difference, point_multiple,
    point_sum, subtract_points, VALUE_COMMITMENT_RANDOMNESS_GENERATOR, VALUE_COMMITMENT_VALUE_GENERATOR,
};
use crate::scalar::{scalar_drawn, scalar_order, Fr};
use crate::signature::{Binding, SigningKey, VerificationKey};
use crate::sums::sum;
use core::marker::PhantomData;
use rand::rngs::StdRng;
use vstd::prelude::*;

verus! {

/// The value of a note, in zatoshis.
#[derive(Clone, Copy, Debug, PartialEq, Eq)]
pub struct NoteValue {
    pub(crate) raw: u64,
}

impl View for NoteValue {
    type V = u64;

    open(crate) spec fn view(&self) -> u64 {
        self.raw
    }
}

impl NoteValue {
    /// The note value of that many zatoshis.
    pub fn from_raw(raw: u64) -> (value: NoteValue)
        ensures
            value@ == raw,
    {
        NoteValue { raw }
    }

    /// The number of zatoshis.
    pub fn inner(&self) -> (raw: u64)
        ensures
            raw == self@,
    {
        self.raw
    }
}

/// A sum of note values, each counted as positive or as negative.
#[derive(Clone, Copy, Debug, PartialEq, Eq)]
pub struct ValueSum {
    pub(crate) sum: i128,
}

impl View for ValueSum {
    type V = int;

    open(crate) spec fn view(&self) -> int {
        self.sum as int
    }
}

impl ValueSum {
    /// The empty sum.
    pub fn zero() -> (sum: ValueSum)
        ensures
            sum@ == 0,
    {
        ValueSum { sum: 0 }
    }

    /// Adds a note value; `None` where the sum leaves the range of `i128`.
    pub fn checked_add(self, value: NoteValue) -> (sum: Option<ValueSum>)
        ensures
            sum is Some <==> self@ + value@ <= i128::MAX,
            sum matches Some(s) ==> s@ == self@ + value@,
    {
        match self.sum.checked_add(value.raw as i128) {
            Some(sum) => Some(ValueSum { sum }),
            None => None,
        }
    }

    /// Subtracts a note value; `None` where the sum leaves the range of `i128`.
    pub fn checked_sub(self, value: NoteValue) -> (sum: Option<ValueSum>)
        ensures
            sum is Some <==> self@ - value@ >= i128::MIN,
            sum matches Some(s) ==> s@ == self@ - value@,
    {
        match self.sum.checked_sub(value.raw as i128) {
            Some(sum) => Some(ValueSum { sum }),
            None => None,
        }
    }

    /// The sum as an `i64`; `None` where it does not fit.
    pub fn to_i64(self) -> (sum: Option<i64>)
        ensures
            sum is Some <==> i64::MIN <= self@ <= i64::MAX,
            sum matches Some(s) ==> s == self@,
    {
        if i64::MIN as i128 <= self.sum && self.sum <= i64::MAX as i128 {
            Some(self.sum as i64)
        } else {
            None
        }
    }
}

/// The randomness of a value commitment.
#[derive(Clone, Copy, Debug)]
pub struct ValueCommitTrapdoor {
    pub(crate) scalar: Fr,
}

impl View for ValueCommitTrapdoor {
    type V = nat;

    open(crate) spec fn view(&self) -> nat {
        self.scalar@
    }
}

impl ValueCommitTrapdoor {
    /// The trapdoor with this scalar.
    pub fn from_scalar(scalar: Fr) -> (trapdoor: Self)
        ensures
            trapdoor@ == scalar@,
    {
        ValueCommitTrapdoor { scalar }
    }

    /// The scalar of this trapdoor.
    pub fn inner(&self) -> (scalar: Fr)
        ensures
            scalar@ == self@,
    {
        self.scalar
    }

    /// Draws a trapdoor.
    pub(crate) fn random(rng: &mut StdRng) -> (trapdoor: Self)
        ensures
            trapdoor_drawn(*old(rng), trapdoor, *final(rng)),
            scalar_drawn(*old(rng), trapdoor.scalar, *final(rng)),
    {
        ValueCommitTrapdoor { scalar: Fr::random(rng) }
    }
}

/// A generator in the state `before` gives this trapdoor, and is in the state `after`
/// then.
pub open(crate) spec fn trapdoor_drawn(
    before: StdRng,
    trapdoor: ValueCommitTrapdoor,
    after: StdRng,
) -> bool {
    scalar_drawn(before, trapdoor.scalar, after)
}

/// A trapdoor that counts as drawn is the scalar that the generator gave.
pub(crate) proof fn law_trapdoor_is_drawn(
    before: StdRng,
    trapdoor: ValueCommitTrapdoor,
    after: StdRng,
)
    requires
        trapdoor_drawn(before, trapdoor, after),
    ensures
        scalar_drawn(before, trapdoor.scalar, after),
        trapdoor@ == trapdoor.scalar@,
{
}

/// The scalars of trapdoors, as integers.
pub open spec fn trapdoor_values(trapdoors: Seq<ValueCommitTrapdoor>) -> Seq<int> {
    trapdoors.map_values(|trapdoor: ValueCommitTrapdoor| trapdoor@ as int)
}

/// A sum of trapdoors, modulo the order of the group.
#[derive(Clone, Copy, Debug)]
pub struct TrapdoorSum {
    pub(crate) scalar: Fr,
}

impl View for TrapdoorSum {
    type V = nat;

    open(crate) spec fn view(&self) -> nat {
        self.scalar@
    }
}

impl TrapdoorSum {
    /// The empty sum.
    pub fn zero() -> (sum: TrapdoorSum)
        ensures
            sum@ == 0,
    {
        TrapdoorSum { scalar: Fr::from_u64(0) }
    }

    /// Adds a trapdoor.
    pub fn plus(self, trapdoor: &ValueCommitTrapdoor) -> (sum: TrapdoorSum)
        ensures
            sum@ == (self@ + trapdoor@) % scalar_order(),
    {
        TrapdoorSum { scalar: self.scalar.plus(&trapdoor.scalar) }
    }

    /// Adds up trapdoors.
    pub fn sum(trapdoors: &Vec<ValueCommitTrapdoor>) -> (total: TrapdoorSum)
        ensures
            total@ == sum(trapdoor_values(trapdoors@)) % (scalar_order() as int),
    {
        let mut total = TrapdoorSum::zero();
        let mut i: usize = 0;
        proof {
            assert(trapdoor_values(trapdoors@).take(0) =~= Seq::<int>::empty());
        }
        while i < trapdoors.len()
            invariant
                i <= trapdoors@.len(),
                total@ == sum(trapdoor_values(trapdoors@).take(i as int)) % (scalar_order() as int),
            decreases trapdoors@.len() - i,
        {
            let ghost values = trapdoor_values(trapdoors@);
            let ghost earlier = sum(values.take(i as int));
            total = total.plus(&trapdoors[i]);
            proof {
                assert(values.take(i + 1).drop_last() =~= values.take(i as int));
                vstd::arithmetic::div_mod::lemma_add_mod_noop_right(
                    values[i as int],
                    earlier,
                    scalar_order() as int,
                );
            }
            i = i + 1;
        }
        proof {
            assert(trapdoor_values(trapdoors@).take(i as int) =~= trapdoor_values(trapdoors@));
        }
        total
    }

    /// Subtracts another sum.
    pub fn minus(self, other: TrapdoorSum) -> (difference: TrapdoorSum)
        ensures
            difference@ == (self@ - other@) % (scalar_order() as int),
    {
        TrapdoorSum { scalar: self.scalar.minus(&other.scalar) }
    }

    /// The binding signing key that this sum is.
    pub fn into_bsk(self) -> (bsk: SigningKey<Binding>)
        ensures
            bsk@ == self@,
    {
        SigningKey::from_scalar(self.scalar)
    }
}

/// A commitment to a note value.
#[derive(Clone, Copy, Debug, PartialEq, Eq)]
pub struct ValueCommitment {
    pub(crate) bytes: [u8; 32],
}

impl View for ValueCommitment {
    type V = Seq<u8>;

    open(crate) spec fn view(&self) -> Seq<u8> {
        self.bytes@
    }
}

impl ValueCommitment {
    #[verifier::type_invariant]
    pub open(crate) spec fn decodes(self) -> bool {
        is_point(self.bytes@)
    }

    /// Commits to a value: that many times the value generator, plus the trapdoor
    /// times the randomness generator.
    pub fn derive(value: NoteValue, rcv: &ValueCommitTrapdoor) -> (cv: ValueCommitment)
        ensures
            cv@ == combination(value@ as int, rcv@ as int),
            cv@ == point_sum(
                point_multiple(VALUE_COMMITMENT_VALUE_GENERATOR@, value@ as int),
                point_multiple(VALUE_COMMITMENT_RANDOMNESS_GENERATOR@, rcv@ as int),
            ),
    {
        let v = multiply(&VALUE_COMMITMENT_VALUE_GENERATOR, &Fr::from_u64(value.raw));
        let r = multiply(&VALUE_COMMITMENT_RANDOMNESS_GENERATOR, &rcv.scalar);
        ValueCommitment { bytes: add_points(&v, &r) }
    }

    /// The encoding of the commitment.
    pub fn to_bytes(&self) -> (bytes: [u8; 32])
        ensures
            bytes@ == self@,
    {
        self.bytes
    }
}

/// The sum of commitments, starting from nothing.
pub open spec fn commitment_total(commitments: Seq<ValueCommitment>) -> Seq<u8>
    decreases commitments.len(),
{
    if commitments.len() == 0 {
        combination(0, 0)
    } else {
        point_sum(commitment_total(commitments.drop_last()), commitments.last()@)
    }
}

/// What is left of a sum of commitments once a value balance is taken off.
pub open spec fn without_balance(total: Seq<u8>, value_balance: int) -> Seq<u8> {
    if value_balance < 0 {
        point_sum(total, combination(-value_balance, 0))
    } else {
        point_difference(total, combination(value_balance, 0))
    }
}

/// Commitments add up one by one, from the neutral element on, and the value balance is
/// taken off their sum: as its multiple of the value generator, on the side of its sign.
pub proof fn law_commitments_add_up(
    commitments: Seq<ValueCommitment>,
    cv: ValueCommitment,
    total: Seq<u8>,
    value_balance: int,
)
    ensures
        commitment_total(Seq::<ValueCommitment>::empty()) == point_sum(
            point_multiple(VALUE_COMMITMENT_VALUE_GENERATOR@, 0),
            point_multiple(VALUE_COMMITMENT_RANDOMNESS_GENERATOR@, 0),
        ),
        commitment_total(commitments.push(cv)) == point_sum(commitment_total(commitments), cv@),
        value_balance >= 0 ==> without_balance(total, value_balance) == point_difference(
            total,
            point_sum(
                point_multiple(VALUE_COMMITMENT_VALUE_GENERATOR@, value_balance),
                point_multiple(VALUE_COMMITMENT_RANDOMNESS_GENERATOR@, 0),
            ),
        ),
        value_balance < 0 ==> without_balance(total, value_balance) == point_sum(
            total,
            point_sum(
                point_multiple(VALUE_COMMITMENT_VALUE_GENERATOR@, -value_balance),
                point_multiple(VALUE_COMMITMENT_RANDOMNESS_GENERATOR@, 0),
            ),
        ),
{
    assert(commitments.push(cv).drop_last() =~= commitments);
}

/// The commitments are to these values, with these trapdoors.
pub open spec fn opened_by(
    commitments: Seq<ValueCommitment>,
    values: Seq<int>,
    trapdoors: Seq<int>,
) -> bool {
    &&& values.len() == commitments.len()
    &&& trapdoors.len() == commitments.len()
    &&& forall|i: int|
        0 <= i < commitments.len() ==> (#[trigger] commitments[i])@ == combination(
            values[i],
            trapdoors[i],
        )
}

/// Trapdoors count as their scalars. Commitments are opened by values and trapdoors exactly
/// where each is its value times the value generator plus its trapdoor times the randomness
/// generator.
pub proof fn law_commitments_are_opened(
    all: Seq<ValueCommitTrapdoor>,
    commitments: Seq<ValueCommitment>,
    values: Seq<int>,
    trapdoors: Seq<int>,
)
    ensures
        trapdoor_values(all).len() == all.len(),
        forall|i: int| 0 <= i < all.len() ==> #[trigger] trapdoor_values(all)[i] == all[i]@,
        opened_by(commitments, values, trapdoors) <==> values.len() == commitments.len()
            && trapdoors.len() == commitments.len() && forall|i: int|
            0 <= i < commitments.len() ==> (#[trigger] commitments[i])@ == point_sum(
                point_multiple(VALUE_COMMITMENT_VALUE_GENERATOR@, values[i]),
                point_multiple(VALUE_COMMITMENT_RANDOMNESS_GENERATOR@, trapdoors[i]),
            ),
{
}

/// A sum of value commitments.
#[derive(Clone, Copy, Debug)]
pub struct CommitmentSum {
    pub(crate) bytes: [u8; 32],
}

impl View for CommitmentSum {
    type V = Seq<u8>;

    open(crate) spec fn view(&self) -> Seq<u8> {
        self.bytes@
    }
}

impl CommitmentSum {
    #[verifier::type_invariant]
    pub open(crate) spec fn decodes(self) -> bool {
        is_point(self.bytes@)
    }

    /// The empty sum.
    pub fn zero() -> (sum: CommitmentSum)
        ensures
            sum@ == combination(0, 0),
    {
        CommitmentSum { bytes: identity() }
    }

    /// Adds a commitment: values add up, and so does randomness.
    pub fn plus(self, cv: &ValueCommitment) -> (sum: CommitmentSum)
        ensures
            sum@ == point_sum(self@, cv@),
            forall|x1: int, y1: int, x2: int, y2: int|
                self@ == #[trigger] combination(x1, y1) && cv@ == #[trigger] combination(x2, y2)
                    ==> sum@ == combination(x1 + x2, y1 + y2),
    {
        proof {
            use_type_invariant(&self);
            use_type_invariant(cv);
        }
        CommitmentSum { bytes: add_points(&self.bytes, &cv.bytes) }
    }

    /// Adds up commitments.
    pub fn sum(commitments: &Vec<ValueCommitment>) -> (total: CommitmentSum)
        ensures
            total@ == commitment_total(commitments@),
            forall|values: Seq<int>, trapdoors: Seq<int>| #[trigger]
                opened_by(commitments@, values, trapdoors) ==> total@ == combination(
                    sum(values),
                    sum(trapdoors),
                ),
    {
        let mut total = CommitmentSum::zero();
        let mut i: usize = 0;
        proof {
            assert(commitments@.take(0) =~= Seq::<ValueCommitment>::empty());
        }
        while i < commitments.len()
            invariant
                i <= commitments@.len(),
                total@ == commitment_total(commitments@.take(i as int)),
                forall|values: Seq<int>, trapdoors: Seq<int>| #[trigger]
                    opened_by(commitments@.take(i as int), values, trapdoors) ==> total@
                        == combination(sum(values), sum(trapdoors)),
            decreases commitments@.len() - i,
        {
            let ghost before = total@;
            let ghost earlier = commitments@.take(i as int);
            let ghost later = commitments@.take(i + 1);
            total = total.plus(&commitments[i]);
            proof {
                assert(later.drop_last() =~= earlier);
                assert(later.last() == commitments@[i as int]);
                assert forall|values: Seq<int>, trapdoors: Seq<int>| #[trigger]
                    opened_by(later, values, trapdoors) implies total@ == combination(
                    sum(values),
                    sum(trapdoors),
                ) by {
                    assert forall|j: int| 0 <= j < earlier.len() implies (#[trigger] earlier[j])@
                        == combination(values.drop_last()[j], trapdoors.drop_last()[j]) by {
                        assert(later[j]@ == combination(values[j], trapdoors[j]));
                    }
                    assert(opened_by(earlier, values.drop_last(), trapdoors.drop_last()));
                    assert(later[i as int]@ == combination(values.last(), trapdoors.last()));
                }
            }
            i = i + 1;
        }
        proof {
            assert(commitments@.take(i as int) =~= commitments@);
        }
        total
    }

    /// Subtracts another sum.
    pub fn minus(self, other: CommitmentSum) -> (difference: CommitmentSum)
        ensures
            difference@ == point_difference(self@, other@),
            forall|x1: int, y1: int, x2: int, y2: int|
                self@ == #[trigger] combination(x1, y1) && other@ == #[trigger] combination(x2, y2)
                    ==> difference@ == combination(x1 - x2, y1 - y2),
    {
        proof {
            use_type_invariant(&self);
            use_type_invariant(&other);
        }
        CommitmentSum { bytes: subtract_points(&self.bytes, &other.bytes) }
    }

    /// The binding verification key: what is left of the sum once the value
    /// balance is taken off its value.
    pub fn into_bvk(self, value_balance: i64) -> (bvk: VerificationKey<Binding>)
        ensures
            bvk@ == without_balance(self@, value_balance as int),
            forall|x: int, y: int|
                self@ == #[trigger] combination(x, y) ==> bvk@ == combination(x - value_balance, y),
    {
        proof {
            use_type_invariant(&self);
        }
        let zero = ValueCommitTrapdoor { scalar: Fr::from_u64(0) };
        let magnitude: i128 = if value_balance < 0 {
            -(value_balance as i128)
        } else {
            value_balance as i128
        };
        let balance = ValueCommitment::derive(NoteValue { raw: magnitude as u64 }, &zero);
        proof {
            use_type_invariant(&balance);
        }
        let bytes = if value_balance < 0 {
            add_points(&self.bytes, &balance.bytes)
        } else {
            subtract_points(&self.bytes, &balance.bytes)
        };
        VerificationKey { bytes, kind: PhantomData }
    }
}

} // verus!
