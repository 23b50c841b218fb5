//! Building a bundle from the spends and outputs that were added.

use crate::builder::{
    balance_converted, output_values, spend_values, BuilderState, SaplingBuilder, SaplingMetadata,
};
use crate::bundle::{Authorization, Bundle, OutputDescription, SpendDescription};
use crate::error::Error;
use crate::in_progress::{InProgress, Unproven, Unsigned};
use crate::note::{Protocol, Zip212Enforcement};
use crate::output_info::{
    address_drawn, describes_output, dummy_drawn, is_dummy, output_built, SaplingOutputInfo,
};
use crate::point::{combination, point_difference};
use crate::prover::{Output, OutputProver, SpendProver};
use crate::random::{
    is_permutation, lemma_permutation_covers, rearranged, shuffle, shuffle_drawn,
};
use crate::scalar::scalar_order;
use crate::signature::{binding_verification_key, Binding, VerificationKey};
use crate::spend_info::{circuit_prepared, spend_built, SpendDescriptionInfo};
use crate::sums::{lemma_sum_append, lemma_sum_rearranged, lemma_sum_zeros, sum};
use crate::value::{
    commitment_total, opened_by, trapdoor_values, without_balance, CommitmentSum, TrapdoorSum,
    ValueCommitTrapdoor, ValueCommitment,
};
use core::marker::PhantomData;
use rand::rngs::StdRng;
use vstd::prelude::*;

verus! {

/// A bundle that has no proofs or signatures.
///
/// This is returned by [`SaplingBuilder::build`].
pub type UnauthorizedBundle<V> = Bundle<InProgress<Unproven, Unsigned>, V>;

/// Each item stands at its own index among the placed ones.
pub open spec fn placed_at<T>(items: Seq<T>, indices: Seq<usize>, placed: Seq<T>) -> bool {
    &&& indices.len() == items.len()
    &&& forall|n: int|
        0 <= n < items.len() ==> (#[trigger] indices[n]) < placed.len()
            && placed[indices[n] as int] == items[n]
    &&& forall|m: int, n: int|
        0 <= m < items.len() && 0 <= n < items.len() && m != n ==> #[trigger] indices[m]
            != #[trigger] indices[n]
}

/// The trapdoors of spends.
pub open spec fn spend_trapdoors(spends: Seq<SpendDescriptionInfo>) -> Seq<int> {
    spends.map_values(|spend: SpendDescriptionInfo| spend.rcv()@ as int)
}

/// The trapdoors of outputs.
pub open spec fn output_trapdoors(outputs: Seq<SaplingOutputInfo>) -> Seq<int> {
    outputs.map_values(|output: SaplingOutputInfo| output.rcv()@ as int)
}

/// Every item with its position.
pub open spec fn with_positions<T>(items: Seq<T>) -> Seq<(usize, T)> {
    Seq::new(items.len(), |i: int| (i as usize, items[i]))
}

/// Every item with its position, and padding up to `count` entries.
pub open spec fn padded_to<T>(items: Seq<T>, count: nat) -> Seq<Option<(usize, T)>> {
    Seq::new(
        count,
        |i: int|
            if i < items.len() {
                Some((i as usize, items[i]))
            } else {
                None
            },
    )
}

/// The shuffled items, taken apart: where those of each position now stand, and the items
/// themselves.
pub open spec fn taken_apart<T>(
    shuffled: Seq<(usize, T)>,
    indices: Seq<usize>,
    items: Seq<T>,
) -> bool {
    &&& indices.len() == shuffled.len()
    &&& items.len() == shuffled.len()
    &&& forall|i: int|
        0 <= i < shuffled.len() ==> items[i] == (#[trigger] shuffled[i]).1
            && indices[shuffled[i].0 as int] == i
}

/// The shuffled outputs, taken apart as the spends are, with dummies in place of the
/// padding. The generator goes through `states`, from `before` to `after`: it is used for
/// each dummy in its turn and for nothing else.
pub open spec fn filled_up_through<N: Protocol>(
    before: StdRng,
    states: Seq<StdRng>,
    zip212_enforcement: Zip212Enforcement,
    shuffled: Seq<Option<(usize, SaplingOutputInfo)>>,
    indices: Seq<usize>,
    outputs: Seq<SaplingOutputInfo>,
    after: StdRng,
) -> bool {
    &&& states.len() == shuffled.len() + 1
    &&& states[0] == before
    &&& states.last() == after
    &&& outputs.len() == shuffled.len()
    &&& forall|i: int|
        0 <= i < shuffled.len() ==> match #[trigger] shuffled[i] {
            Some((pos, output)) => {
                &&& outputs[i] == output
                &&& indices[pos as int] == i
                &&& states[i + 1] == states[i]
            },
            None => dummy_drawn::<N>(states[i], zip212_enforcement, outputs[i], states[i + 1]),
        }
}

/// The shuffled outputs, taken apart, with dummies in place of the padding. The generator
/// is in the state `before` at first and in the state `after` then.
pub open spec fn filled_up<N: Protocol>(
    before: StdRng,
    zip212_enforcement: Zip212Enforcement,
    shuffled: Seq<Option<(usize, SaplingOutputInfo)>>,
    indices: Seq<usize>,
    outputs: Seq<SaplingOutputInfo>,
    after: StdRng,
) -> bool {
    exists|states: Seq<StdRng>| #[trigger]
        filled_up_through::<N>(
            before,
            states,
            zip212_enforcement,
            shuffled,
            indices,
            outputs,
            after,
        )
}

/// Filling up the shuffled outputs came to a dummy that could not be drawn.
pub open spec fn filling_failed<N: Protocol>(
    before: StdRng,
    zip212_enforcement: Zip212Enforcement,
    shuffled: Seq<Option<(usize, SaplingOutputInfo)>>,
    after: StdRng,
) -> bool {
    exists|
        k: int,
        states: Seq<StdRng>,
        indices: Seq<usize>,
        outputs: Seq<SaplingOutputInfo>,
    |
        0 <= k < shuffled.len() && shuffled[k] is None && #[trigger] filled_up_through::<N>(
            before,
            states,
            zip212_enforcement,
            shuffled.take(k),
            indices,
            outputs,
            states.last(),
        ) && address_drawn::<N>(states.last(), None, after)
}

/// Pairs every item with its position.
fn indexed<T>(items: Vec<T>) -> (pairs: Vec<(usize, T)>)
    ensures
        pairs@ == with_positions(items@),
{
    let mut pairs: Vec<(usize, T)> = Vec::new();
    for item in it: items
        invariant
            it.seq() == items@,
            pairs@.len() == it.index(),
            forall|i: int| 0 <= i < it.index() ==> #[trigger] pairs@[i] == (i as usize, items@[i]),
    {
        let position: usize = pairs.len();
        pairs.push((position, item));
    }
    pairs
}

/// Pairs every item with its position, and pads the list up to `count` entries.
fn padded<T>(items: Vec<T>, count: usize) -> (entries: Vec<Option<(usize, T)>>)
    requires
        items@.len() <= count,
    ensures
        entries@ == padded_to(items@, count as nat),
{
    let mut entries: Vec<Option<(usize, T)>> = Vec::new();
    for item in it: items
        invariant
            it.seq() == items@,
            entries@.len() == it.index(),
            forall|i: int|
                0 <= i < it.index() ==> #[trigger] entries@[i] == Some((i as usize, items@[i])),
    {
        let position: usize = entries.len();
        entries.push(Some((position, item)));
    }
    while entries.len() < count
        invariant
            items@.len() <= entries@.len() <= count,
            forall|i: int|
                0 <= i < entries@.len() ==> #[trigger] entries@[i] == if i < items@.len() {
                    Some((i as usize, items@[i]))
                } else {
                    None
                },
        decreases count - entries@.len(),
    {
        entries.push(None);
    }
    entries
}

/// Takes the shuffled spends apart, and records where each of them now stands.
fn place_spends<T>(shuffled: Vec<(usize, T)>, Ghost(order): Ghost<Seq<int>>) -> (placed: (
    Vec<usize>,
    Vec<T>,
))
    requires
        is_permutation(order, shuffled@.len()),
        forall|i: int| 0 <= i < shuffled@.len() ==> (#[trigger] shuffled@[i]).0 == order[i],
    ensures
        taken_apart(shuffled@, placed.0@, placed.1@),
{
    let n: usize = shuffled.len();
    let mut indices: Vec<usize> = Vec::new();
    indices.resize(n, 0);
    let mut items: Vec<T> = Vec::new();
    for pair in it: shuffled
        invariant
            it.seq() == shuffled@,
            n == shuffled@.len(),
            is_permutation(order, n as nat),
            forall|i: int| 0 <= i < n ==> (#[trigger] shuffled@[i]).0 == order[i],
            indices@.len() == n,
            items@.len() == it.index(),
            forall|i: int| 0 <= i < it.index() ==> #[trigger] items@[i] == shuffled@[i].1,
            forall|i: int| 0 <= i < it.index() ==> indices@[#[trigger] order[i]] == i,
    {
        let (pos, item) = pair;
        let i: usize = items.len();
        assert(shuffled@[i as int].0 == order[i as int]);
        // Record the post-randomized spend location
        indices.set(pos, i);
        items.push(item);
    }
    (indices, items)
}

/// Takes the shuffled outputs apart, records where each of them now stands, and makes
/// a dummy output for every padding entry. `None` where a dummy could not be made.
fn place_outputs<N: Protocol>(
    shuffled: Vec<Option<(usize, SaplingOutputInfo)>>,
    added: usize,
    rng: &mut StdRng,
    zip212_enforcement: Zip212Enforcement,
    Ghost(order): Ghost<Seq<int>>,
) -> (placed: Option<(Vec<usize>, Vec<SaplingOutputInfo>)>)
    requires
        is_permutation(order, shuffled@.len()),
        added <= shuffled@.len(),
        forall|i: int|
            0 <= i < shuffled@.len() ==> match #[trigger] shuffled@[i] {
                Some((pos, _)) => pos == order[i] && pos < added,
                None => order[i] >= added,
            },
    ensures
        match placed {
            Some((indices, outputs)) => {
                &&& indices@.len() == added
                &&& filled_up::<N>(
                    *old(rng),
                    zip212_enforcement,
                    shuffled@,
                    indices@,
                    outputs@,
                    *final(rng),
                )
                &&& forall|i: int|
                    0 <= i < shuffled@.len() && (#[trigger] shuffled@[i]) is None ==> is_dummy::<N>(
                        outputs@[i],
                        zip212_enforcement,
                    )
            },
            None => {
                &&& added < shuffled@.len()
                &&& filling_failed::<N>(*old(rng), zip212_enforcement, shuffled@, *final(rng))
            },
        },
{
    let n: usize = shuffled.len();
    let mut indices: Vec<usize> = Vec::new();
    indices.resize(added, 0);
    let mut outputs: Vec<SaplingOutputInfo> = Vec::new();
    let ghost mut states: Seq<StdRng> = seq![*rng];
    for entry in it: shuffled
        invariant
            it.seq() == shuffled@,
            n == shuffled@.len(),
            added <= n,
            is_permutation(order, n as nat),
            forall|i: int|
                0 <= i < shuffled@.len() ==> match #[trigger] shuffled@[i] {
                    Some((pos, _)) => pos == order[i] && pos < added,
                    None => order[i] >= added,
                },
            indices@.len() == added,
            outputs@.len() == it.index(),
            states.len() == it.index() + 1,
            states[0] == *old(rng),
            states.last() == *rng,
            forall|i: int|
                0 <= i < it.index() ==> match #[trigger] shuffled@[i] {
                    Some((pos, output)) => {
                        &&& outputs@[i] == output
                        &&& indices@[pos as int] == i
                        &&& states[i + 1] == states[i]
                    },
                    None => {
                        &&& dummy_drawn::<N>(
                            states[i],
                            zip212_enforcement,
                            outputs@[i],
                            states[i + 1],
                        )
                        &&& is_dummy::<N>(outputs@[i], zip212_enforcement)
                    },
                },
    {
        let i: usize = outputs.len();
        assert(entry == shuffled@[i as int]);
        assert(0 <= order[i as int] < n);
        let ghost earlier = indices@;
        match entry {
            Some((pos, output)) => {
                // Record the post-randomized output location
                indices.set(pos, i);
                outputs.push(output);
                assert forall|j: int| 0 <= j < i && (#[trigger] shuffled@[j]) is Some implies indices@[
                order[j]] == earlier[order[j]] by {
                    assert(order[j] != order[i as int]);
                }
            },
            None => {
                // This is a dummy output
                match SaplingOutputInfo::dummy::<N>(rng, zip212_enforcement) {
                    Some(output) => {
                        outputs.push(output);
                    },
                    None => {
                        assert(filled_up_through::<N>(
                            *old(rng),
                            states,
                            zip212_enforcement,
                            shuffled@.take(i as int),
                            indices@,
                            outputs@,
                            states.last(),
                        ));
                        return None;
                    },
                }
            },
        }
        proof {
            states = states.push(*rng);
        }
    }
    assert(filled_up_through::<N>(
        *old(rng),
        states,
        zip212_enforcement,
        shuffled@,
        indices@,
        outputs@,
        *rng,
    ));
    Some((indices, outputs))
}

/// Describes the spends, in order. The first that cannot be described ends it.
fn build_spends<N: Protocol, SP: SpendProver>(
    spends: Vec<SpendDescriptionInfo>,
    anchor: Option<bls12_381::Scalar>,
) -> (descriptions: Result<Vec<SpendDescription<InProgress<Unproven, Unsigned>>>, Error>)
    requires
        spends@.len() > 0 ==> anchor is Some,
    ensures
        match descriptions {
            Ok(descriptions) => {
                &&& descriptions@.len() == spends@.len()
                &&& forall|i: int|
                    0 <= i < spends@.len() ==> spend_built::<N, SP>(
                        spends@[i],
                        anchor->0,
                        #[trigger] descriptions@[i],
                    )
            },
            Err(e) => e == Error::SpendProof && exists|i: int|
                0 <= i < spends@.len() && circuit_prepared::<SP>(
                    #[trigger] spends@[i],
                    anchor->0,
                    None,
                ),
        },
{
    let mut descriptions: Vec<SpendDescription<InProgress<Unproven, Unsigned>>> = Vec::new();
    for spend in it: spends
        invariant
            it.seq() == spends@,
            spends@.len() > 0 ==> anchor is Some,
            descriptions@.len() == it.index(),
            forall|i: int|
                0 <= i < it.index() ==> spend_built::<N, SP>(
                    spends@[i],
                    anchor->0,
                    #[trigger] descriptions@[i],
                ),
    {
        assert(spend == spends@[descriptions@.len() as int]);
        match spend.build::<N, SP>(anchor) {
            Ok(description) => {
                descriptions.push(description);
            },
            Err(e) => {
                return Err(e);
            },
        }
    }
    Ok(descriptions)
}

/// The outputs are described, in order. The generator goes through `states`, from `before` to
/// `after`: it is used for each output in its turn and for nothing else.
pub open spec fn described_through<N: Protocol, OP: OutputProver>(
    before: StdRng,
    states: Seq<StdRng>,
    outputs: Seq<SaplingOutputInfo>,
    descriptions: Seq<OutputDescription<Output>>,
    after: StdRng,
) -> bool {
    &&& states.len() == outputs.len() + 1
    &&& states[0] == before
    &&& states.last() == after
    &&& descriptions.len() == outputs.len()
    &&& forall|i: int|
        0 <= i < outputs.len() ==> output_built::<N, OP>(
            states[i],
            outputs[i],
            #[trigger] descriptions[i],
            states[i + 1],
        )
}

/// The outputs are described, in order, with a generator that is in the state `before` at
/// first and in the state `after` then.
pub open spec fn outputs_described<N: Protocol, OP: OutputProver>(
    before: StdRng,
    outputs: Seq<SaplingOutputInfo>,
    descriptions: Seq<OutputDescription<Output>>,
    after: StdRng,
) -> bool {
    exists|states: Seq<StdRng>| #[trigger]
        described_through::<N, OP>(before, states, outputs, descriptions, after)
}

/// Describes the outputs, in order.
fn build_outputs<N: Protocol, OP: OutputProver>(
    outputs: Vec<SaplingOutputInfo>,
    rng: &mut StdRng,
) -> (descriptions: Vec<OutputDescription<Output>>)
    ensures
        outputs_described::<N, OP>(*old(rng), outputs@, descriptions@, *final(rng)),
{
    let mut descriptions: Vec<OutputDescription<Output>> = Vec::new();
    let ghost mut states: Seq<StdRng> = seq![*rng];
    for output in it: outputs
        invariant
            it.seq() == outputs@,
            states.len() == it.index() + 1,
            states[0] == *old(rng),
            states.last() == *rng,
            descriptions@.len() == it.index(),
            forall|i: int|
                0 <= i < it.index() ==> output_built::<N, OP>(
                    states[i],
                    outputs@[i],
                    #[trigger] descriptions@[i],
                    states[i + 1],
                ),
    {
        let description = output.build::<N, OP>(rng);
        descriptions.push(description);
        proof {
            states = states.push(*rng);
        }
    }
    assert(described_through::<N, OP>(*old(rng), states, outputs@, descriptions@, *rng));
    descriptions
}

/// The value commitments of spends.
pub open spec fn spend_commitments<A: Authorization>(
    spends: Seq<SpendDescription<A>>,
) -> Seq<ValueCommitment> {
    spends.map_values(|spend: SpendDescription<A>| spend.cv)
}

/// The value commitments of outputs.
pub open spec fn output_commitments<Proof>(outputs: Seq<OutputDescription<Proof>>) -> Seq<
    ValueCommitment,
> {
    outputs.map_values(|output: OutputDescription<Proof>| output.cv)
}

/// What the spends commit to, less what the outputs commit to, less the value
/// balance: the encoding of the binding verification key.
pub open spec fn bvk_of(
    spends: Seq<ValueCommitment>,
    outputs: Seq<ValueCommitment>,
    value_balance: int,
) -> Seq<u8> {
    without_balance(
        point_difference(commitment_total(spends), commitment_total(outputs)),
        value_balance,
    )
}

/// The value commitments of the spends, in order.
fn collect_spend_commitments<A: Authorization>(spends: &Vec<SpendDescription<A>>) -> (commitments:
    Vec<ValueCommitment>)
    ensures
        commitments@ == spend_commitments(spends@),
{
    let mut commitments: Vec<ValueCommitment> = Vec::new();
    let mut i: usize = 0;
    while i < spends.len()
        invariant
            i <= spends@.len(),
            commitments@ == spend_commitments(spends@).take(i as int),
        decreases spends@.len() - i,
    {
        commitments.push(spends[i].cv);
        i = i + 1;
    }
    commitments
}

/// The value commitments of the outputs, in order.
fn collect_output_commitments<Proof>(outputs: &Vec<OutputDescription<Proof>>) -> (commitments: Vec<
    ValueCommitment,
>)
    ensures
        commitments@ == output_commitments(outputs@),
{
    let mut commitments: Vec<ValueCommitment> = Vec::new();
    let mut i: usize = 0;
    while i < outputs.len()
        invariant
            i <= outputs@.len(),
            commitments@ == output_commitments(outputs@).take(i as int),
        decreases outputs@.len() - i,
    {
        commitments.push(outputs[i].cv);
        i = i + 1;
    }
    commitments
}

/// The key that the binding signature of a bundle with these spends, outputs and value
/// balance is checked with.
pub fn compute_bvk<A: Authorization>(
    spends: &Vec<SpendDescription<A>>,
    outputs: &Vec<OutputDescription<A::OutputProof>>,
    value_balance: i64,
) -> (bvk: VerificationKey<Binding>)
    ensures
        bvk@ == bvk_of(
            spend_commitments(spends@),
            output_commitments(outputs@),
            value_balance as int,
        ),
        forall|vs: Seq<int>, rs: Seq<int>, vo: Seq<int>, ro: Seq<int>|
            #[trigger] opened_by(spend_commitments(spends@), vs, rs) && #[trigger] opened_by(
                output_commitments(outputs@),
                vo,
                ro,
            ) ==> bvk@ == combination(
                sum(vs) - sum(vo) - value_balance,
                sum(rs) - sum(ro),
            ),
{
    let spent = CommitmentSum::sum(&collect_spend_commitments(spends));
    let sent = CommitmentSum::sum(&collect_output_commitments(outputs));
    spent.minus(sent).into_bvk(value_balance)
}

/// The sum of the trapdoors of spends, less that of outputs.
fn trapdoor_difference(spends: &Vec<SpendDescriptionInfo>, outputs: &Vec<SaplingOutputInfo>) -> (
difference: TrapdoorSum)
    ensures
        difference@ == (sum(spend_trapdoors(spends@)) - sum(output_trapdoors(outputs@))) % (
        scalar_order() as int),
{
    let mut spent: Vec<ValueCommitTrapdoor> = Vec::new();
    let mut i: usize = 0;
    while i < spends.len()
        invariant
            i <= spends@.len(),
            spent@.len() == i,
            forall|k: int| 0 <= k < i ==> #[trigger] spent@[k] == spends@[k].rcv(),
        decreases spends@.len() - i,
    {
        spent.push(spends[i].rcv);
        i = i + 1;
    }
    assert(trapdoor_values(spent@) =~= spend_trapdoors(spends@));
    let mut sent: Vec<ValueCommitTrapdoor> = Vec::new();
    let mut j: usize = 0;
    while j < outputs.len()
        invariant
            j <= outputs@.len(),
            sent@.len() == j,
            forall|k: int| 0 <= k < j ==> #[trigger] sent@[k] == outputs@[k].rcv(),
        decreases outputs@.len() - j,
    {
        sent.push(outputs[j].rcv);
        j = j + 1;
    }
    assert(trapdoor_values(sent@) =~= output_trapdoors(outputs@));
    proof {
        vstd::arithmetic::div_mod::lemma_sub_mod_noop(
            sum(spend_trapdoors(spends@)),
            sum(output_trapdoors(outputs@)),
            scalar_order() as int,
        );
    }
    TrapdoorSum::sum(&spent).minus(TrapdoorSum::sum(&sent))
}

/// What was recorded while taking shuffled items apart says where each of them stands.
/// Entries beyond the items are padding.
proof fn lemma_placed<T>(items: Seq<T>, order: Seq<int>, indices: Seq<usize>, placed: Seq<T>)
    requires
        is_permutation(order, placed.len()),
        items.len() <= placed.len(),
        indices.len() == items.len(),
        forall|i: int|
            0 <= i < placed.len() && (#[trigger] order[i]) < items.len() ==> placed[i]
                == items[order[i]] && indices[order[i]] == i,
    ensures
        placed_at(items, indices, placed),
        forall|i: int|
            0 <= i < placed.len() && (#[trigger] order[i]) < items.len() ==> indices.contains(
                i as usize,
            ),
{
    lemma_permutation_covers(order, placed.len());
    assert forall|n: int| 0 <= n < items.len() implies (#[trigger] indices[n]) < placed.len()
        && placed[indices[n] as int] == items[n] && order[indices[n] as int] == n by {
        assert(order.contains(n));
        let k = choose|k: int| 0 <= k < order.len() && order[k] == n;
        assert(indices[order[k]] == k);
    }
    assert forall|i: int| 0 <= i < placed.len() && (#[trigger] order[i]) < items.len() implies
        indices.contains(i as usize) by {
        assert(indices[order[i]] == i);
    }
}

/// Some conversion of the value balance to a `V` succeeds.
pub open spec fn convertible<V: TryFrom<i64>>(value_balance: int) -> bool {
    exists|v: V| #[trigger] balance_converted(value_balance, Ok::<V, Error>(v))
}

/// The bundle and its metadata are made from what the builder held, with the spends
/// and outputs in this order.
pub open spec fn built_in_order<N: Protocol, SP: SpendProver, OP: OutputProver, V: TryFrom<i64>>(
    before: BuilderState,
    spends: Seq<SpendDescriptionInfo>,
    outputs: Seq<SaplingOutputInfo>,
    bundle: UnauthorizedBundle<V>,
    metadata: SaplingMetadata,
) -> bool {
    // The spends are those that were added, and the metadata says where they are.
    &&& spends.len() == before.spends.len()
    &&& placed_at(before.spends, metadata.spend_indices(), spends)
    // The outputs are those that were added and dummies.
    &&& outputs.len() == before.output_count()
    &&& placed_at(before.outputs, metadata.output_indices(), outputs)
    &&& forall|i: int|
        0 <= i < outputs.len() ==> metadata.output_indices().contains(i as usize) || is_dummy::<N>(
            #[trigger] outputs[i],
            before.zip212_enforcement,
        )
    // Each is described in its place.
    &&& bundle.shielded_spends@.len() == spends.len()
    &&& forall|i: int|
        0 <= i < spends.len() ==> spend_built::<N, SP>(
            spends[i],
            before.anchor->0,
            #[trigger] bundle.shielded_spends@[i],
        )
    &&& bundle.shielded_outputs@.len() == outputs.len()
    &&& forall|i: int|
        0 <= i < outputs.len() ==> describes_output::<N, OP>(
            outputs[i],
            #[trigger] bundle.shielded_outputs@[i],
        )
    // The value balance is the builder's.
    &&& balance_converted(before.value_balance, Ok::<V, Error>(bundle.value_balance))
    // The binding signing key is the difference of the trapdoors.
    &&& bundle.authorization.sigs().bsk()@ == (sum(spend_trapdoors(spends)) - sum(
        output_trapdoors(outputs),
    )) % (scalar_order() as int)
}

/// The binding signing key of a bundle belongs to the verification key that the
/// commitments and the value balance of the bundle give.
pub open spec fn binding_keys_agree<V>(
    bundle: UnauthorizedBundle<V>,
    value_balance: int,
) -> bool {
    binding_verification_key(bundle.authorization.sigs().bsk()@) == bvk_of(
        spend_commitments(bundle.shielded_spends@),
        output_commitments(bundle.shielded_outputs@),
        value_balance,
    )
}

/// A generator in the state `start` shuffles the spends and then the outputs of the
/// builder, gives the dummies that the outputs are filled up with, and is in the state
/// `after` then. The metadata records where everything stands.
pub open spec fn arranged<N: Protocol>(
    before: BuilderState,
    start: StdRng,
    spends: Seq<SpendDescriptionInfo>,
    outputs: Seq<SaplingOutputInfo>,
    metadata: SaplingMetadata,
    after: StdRng,
) -> bool {
    exists|
        listed_spends: Vec<(usize, SpendDescriptionInfo)>,
        shuffled_spends: Vec<(usize, SpendDescriptionInfo)>,
        listed_outputs: Vec<Option<(usize, SaplingOutputInfo)>>,
        shuffled_outputs: Vec<Option<(usize, SaplingOutputInfo)>>,
        between: StdRng,
        second: StdRng,
    |
        {
            &&& listed_spends@ == with_positions(before.spends)
            &&& #[trigger] shuffle_drawn(start, listed_spends, shuffled_spends, between)
            &&& taken_apart(shuffled_spends@, metadata.spend_indices(), spends)
            &&& listed_outputs@ == padded_to(before.outputs, before.output_count())
            &&& #[trigger] shuffle_drawn(between, listed_outputs, shuffled_outputs, second)
            &&& #[trigger] filled_up::<N>(
                second,
                before.zip212_enforcement,
                shuffled_outputs@,
                metadata.output_indices(),
                outputs,
                after,
            )
        }
}

/// A generator in the state `start` shuffles the spends and then the outputs of the
/// builder, does not give a dummy that is needed, and is in the state `after` then.
pub open spec fn arranging_failed<N: Protocol>(
    before: BuilderState,
    start: StdRng,
    after: StdRng,
) -> bool {
    exists|
        listed_spends: Vec<(usize, SpendDescriptionInfo)>,
        shuffled_spends: Vec<(usize, SpendDescriptionInfo)>,
        listed_outputs: Vec<Option<(usize, SaplingOutputInfo)>>,
        shuffled_outputs: Vec<Option<(usize, SaplingOutputInfo)>>,
        between: StdRng,
        second: StdRng,
    |
        {
            &&& listed_spends@ == with_positions(before.spends)
            &&& #[trigger] shuffle_drawn(start, listed_spends, shuffled_spends, between)
            &&& listed_outputs@ == padded_to(before.outputs, before.output_count())
            &&& #[trigger] shuffle_drawn(between, listed_outputs, shuffled_outputs, second)
            &&& #[trigger] filling_failed::<N>(
                second,
                before.zip212_enforcement,
                shuffled_outputs@,
                after,
            )
        }
}

/// The bundle and its metadata are made from what the builder held. The generator is in the
/// state `start` at first. The spends and outputs are arranged with it, then the outputs are
/// described with it, and it is in the state `end` then.
pub open spec fn built<N: Protocol, SP: SpendProver, OP: OutputProver, V: TryFrom<i64>>(
    before: BuilderState,
    start: StdRng,
    bundle: UnauthorizedBundle<V>,
    metadata: SaplingMetadata,
    end: StdRng,
) -> bool {
    &&& binding_keys_agree(bundle, before.value_balance)
    &&& exists|
        spends: Seq<SpendDescriptionInfo>,
        outputs: Seq<SaplingOutputInfo>,
        between: StdRng,
    |
        {
            &&& #[trigger] built_in_order::<N, SP, OP, V>(
                before,
                spends,
                outputs,
                bundle,
                metadata,
            )
            &&& #[trigger] arranged::<N>(before, start, spends, outputs, metadata, between)
            &&& outputs_described::<N, OP>(between, outputs, bundle.shielded_outputs@, end)
        }
}

/// A generator in the state `start` arranges the spends and outputs of the builder, and is in
/// the state `end` then. Of one of the spends the prover makes no circuit.
pub open spec fn circuit_refused<N: Protocol, SP: SpendProver>(
    before: BuilderState,
    start: StdRng,
    end: StdRng,
) -> bool {
    exists|
        spends: Seq<SpendDescriptionInfo>,
        outputs: Seq<SaplingOutputInfo>,
        metadata: SaplingMetadata,
        i: int,
    |
        {
            &&& #[trigger] arranged::<N>(before, start, spends, outputs, metadata, end)
            &&& 0 <= i < spends.len()
            &&& circuit_prepared::<SP>(#[trigger] spends[i], before.anchor->0, None)
        }
}

/// A generator in the state `start` arranges a builder without spends and outputs, and is in
/// the state `end` then.
pub open spec fn nothing_built<N: Protocol>(
    before: BuilderState,
    start: StdRng,
    end: StdRng,
) -> bool {
    &&& before.spends.len() == 0
    &&& before.outputs.len() == 0
    &&& exists|
        spends: Seq<SpendDescriptionInfo>,
        outputs: Seq<SaplingOutputInfo>,
        metadata: SaplingMetadata,
    | #[trigger]
        arranged::<N>(before, start, spends, outputs, metadata, end)
}

/// What building answers. The generator is in the state `start` at first and in the state
/// `end` then.
pub open spec fn build_answered<N: Protocol, SP: SpendProver, OP: OutputProver, V: TryFrom<i64>>(
    before: BuilderState,
    start: StdRng,
    answer: Result<Option<(UnauthorizedBundle<V>, SaplingMetadata)>, Error>,
    end: StdRng,
) -> bool {
    match answer {
        Ok(None) => {
            &&& nothing_built::<N>(before, start, end)
            &&& convertible::<V>(before.value_balance)
        },
        Ok(Some((bundle, metadata))) => {
            &&& before.spends.len() > 0 || before.outputs.len() > 0
            &&& built::<N, SP, OP, V>(before, start, bundle, metadata, end)
        },
        Err(Error::InvalidAmount) => {
            &&& balance_converted(before.value_balance, Err::<V, Error>(Error::InvalidAmount))
            &&& end == start
        },
        Err(Error::SpendProof) => {
            &&& convertible::<V>(before.value_balance)
            &&& circuit_refused::<N, SP>(before, start, end)
            &&& exists|n: int|
                0 <= n < before.spends.len() && circuit_prepared::<SP>(
                    #[trigger] before.spends[n],
                    before.anchor->0,
                    None,
                )
        },
        Err(Error::InvalidAddress) => {
            &&& convertible::<V>(before.value_balance)
            &&& before.outputs.len() < before.output_count()
            &&& arranging_failed::<N>(before, start, end)
        },
        Err(_) => false,
    }
}

impl SaplingBuilder {
    /// Builds a bundle, in which the spends and the outputs stand in random order. Where
    /// there are spends, dummy outputs fill the outputs up to the least number.
    pub fn build<N: Protocol, SP: SpendProver, OP: OutputProver, V: TryFrom<i64>>(
        self,
        rng: &mut StdRng,
    ) -> (result: Result<Option<(UnauthorizedBundle<V>, SaplingMetadata)>, Error>)
        ensures
            build_answered::<N, SP, OP, V>(self@, *old(rng), result, *final(rng)),
            self@.well_formed(),
    {
        proof {
            use_type_invariant(&self);
        }
        let ghost before = self@;
        let value_balance: V = match self.try_value_balance() {
            Ok(value_balance) => value_balance,
            Err(e) => {
                return Err(e);
            },
        };
        assert(balance_converted(before.value_balance, Ok::<V, Error>(value_balance)));
        // Record initial positions of spends and outputs, and pad Sapling outputs
        let count: usize = self.bundle_output_count();
        let spent: usize = self.spends.len();
        let added: usize = self.outputs.len();
        let indexed_spends = indexed(self.spends);
        let indexed_outputs = padded(self.outputs, count);
        let ghost start = *rng;
        // Randomize order of inputs and outputs
        let shuffled_spends = shuffle(indexed_spends, rng);
        let ghost between = *rng;
        let shuffled_outputs = shuffle(indexed_outputs, rng);
        let ghost second = *rng;
        let ghost spend_order = choose|order: Seq<int>| #[trigger]
            is_permutation(order, indexed_spends@.len()) && shuffled_spends@ == rearranged(
                indexed_spends@,
                order,
            );
        let ghost output_order = choose|order: Seq<int>| #[trigger]
            is_permutation(order, indexed_outputs@.len()) && shuffled_outputs@ == rearranged(
                indexed_outputs@,
                order,
            );
        assert forall|i: int| 0 <= i < shuffled_spends@.len() implies (
        #[trigger] shuffled_spends@[i]).0 == spend_order[i] by {
            assert(0 <= spend_order[i] < spent);
            assert(shuffled_spends@[i] == indexed_spends@[spend_order[i]]);
        }
        // Record the transaction metadata and create dummy outputs.
        let (spend_indices, spend_infos) = place_spends(shuffled_spends, Ghost(spend_order));
        let (output_indices, output_infos) = match place_outputs::<N>(
            shuffled_outputs,
            added,
            rng,
            self.zip212_enforcement,
            Ghost(output_order),
        ) {
            Some(placed) => placed,
            None => {
                assert(shuffle_drawn(start, indexed_spends, shuffled_spends, between));
                assert(shuffle_drawn(between, indexed_outputs, shuffled_outputs, second));
                return Err(Error::InvalidAddress);
            },
        };
        let ghost spends = spend_infos@;
        let ghost outputs = output_infos@;
        let tx_metadata = SaplingMetadata { spend_indices, output_indices };
        let ghost third = *rng;
        proof {
            assert(shuffle_drawn(start, indexed_spends, shuffled_spends, between));
            assert(shuffle_drawn(between, indexed_outputs, shuffled_outputs, second));
            assert(filled_up::<N>(
                second,
                before.zip212_enforcement,
                shuffled_outputs@,
                tx_metadata.output_indices(),
                outputs,
                third,
            ));
            assert(arranged::<N>(before, start, spends, outputs, tx_metadata, third));
            assert forall|i: int| 0 <= i < spends.len() implies {
                &&& spends[i] == before.spends[#[trigger] spend_order[i]]
                &&& spend_indices@[spend_order[i]] == i
            } by {
                assert(shuffled_spends@[i] == indexed_spends@[spend_order[i]]);
            }
            assert(spends =~= rearranged(before.spends, spend_order));
            lemma_placed(before.spends, spend_order, spend_indices@, spends);
            assert forall|i: int| 0 <= i < outputs.len() implies {
                &&& (#[trigger] output_order[i]) < added ==> outputs[i]
                    == before.outputs[output_order[i]] && output_indices@[output_order[i]] == i
                &&& output_order[i] >= added ==> is_dummy::<N>(
                    outputs[i],
                    before.zip212_enforcement,
                )
            } by {
                assert(shuffled_outputs@[i] == indexed_outputs@[output_order[i]]);
            }
            lemma_placed(before.outputs, output_order, output_indices@, outputs);
            assert forall|i: int| 0 <= i < outputs.len() implies output_indices@.contains(i as usize)
                || is_dummy::<N>(#[trigger] outputs[i], before.zip212_enforcement) by {
                assert(0 <= output_order[i] < count);
            }
        }
        // Compute the transaction binding signing key.
        let bsk = trapdoor_difference(&spend_infos, &output_infos).into_bsk();
        // Create the unauthorized Spend and Output descriptions.
        let shielded_spends = match build_spends::<N, SP>(spend_infos, self.anchor) {
            Ok(shielded_spends) => shielded_spends,
            Err(e) => {
                proof {
                    let i = choose|i: int|
                        0 <= i < spends.len() && circuit_prepared::<SP>(
                            #[trigger] spends[i],
                            before.anchor->0,
                            None,
                        );
                    assert(spends[i] == before.spends[spend_order[i]]);
                    assert(circuit_refused::<N, SP>(before, start, third));
                }
                return Err(e);
            },
        };
        let shielded_outputs = build_outputs::<N, OP>(output_infos, rng);
        assert(forall|i: int|
            0 <= i < outputs.len() ==> describes_output::<N, OP>(
                outputs[i],
                #[trigger] shielded_outputs@[i],
            ));
        // Verify that bsk and bvk are consistent.
        let vb: i64 = match self.value_balance.to_i64() {
            Some(vb) => vb,
            None => {
                return Err(Error::InvalidAmount);
            },
        };
        let bvk = compute_bvk::<InProgress<Unproven, Unsigned>>(
            &shielded_spends,
            &shielded_outputs,
            vb,
        );
        let vk = bsk.binding_key();
        proof {
            lemma_spend_values(before.spends, spend_order, spends);
            lemma_output_values::<N>(
                before.outputs,
                output_order,
                outputs,
                before.zip212_enforcement,
            );
            assert(opened_by(
                spend_commitments(shielded_spends@),
                spend_values(spends),
                spend_trapdoors(spends),
            ));
            assert(opened_by(
                output_commitments(shielded_outputs@),
                output_values(outputs),
                output_trapdoors(outputs),
            ));
            assert(bvk@ == vk@);
        }
        let bundle = Bundle::from_parts(
            shielded_spends,
            shielded_outputs,
            value_balance,
            InProgress { sigs: Unsigned { bsk }, proof_state: PhantomData },
        );
        match bundle {
            Some(bundle) => {
                assert(built_in_order::<N, SP, OP, V>(
                    before,
                    spends,
                    outputs,
                    bundle,
                    tx_metadata,
                ));
                Ok(Some((bundle, tx_metadata)))
            },
            None => Ok(None),
        }
    }
}

/// Shuffling spends does not change what their values add up to.
proof fn lemma_spend_values(
    spends: Seq<SpendDescriptionInfo>,
    order: Seq<int>,
    placed: Seq<SpendDescriptionInfo>,
)
    requires
        is_permutation(order, spends.len()),
        placed == rearranged(spends, order),
    ensures
        sum(spend_values(placed)) == sum(spend_values(spends)),
{
    assert(spend_values(placed) =~= rearranged(spend_values(spends), order));
    lemma_sum_rearranged(spend_values(spends), order);
}

/// Neither shuffling outputs nor padding them changes what their values add up to.
proof fn lemma_output_values<N: Protocol>(
    outputs: Seq<SaplingOutputInfo>,
    order: Seq<int>,
    placed: Seq<SaplingOutputInfo>,
    zip212_enforcement: Zip212Enforcement,
)
    requires
        is_permutation(order, placed.len()),
        outputs.len() <= placed.len(),
        forall|i: int|
            0 <= i < placed.len() ==> {
                &&& (#[trigger] order[i]) < outputs.len() ==> placed[i] == outputs[order[i]]
                &&& order[i] >= outputs.len() ==> is_dummy::<N>(placed[i], zip212_enforcement)
            },
    ensures
        sum(output_values(placed)) == sum(output_values(outputs)),
{
    let zeros = Seq::new((placed.len() - outputs.len()) as nat, |i: int| 0int);
    let all = output_values(outputs) + zeros;
    assert forall|i: int| 0 <= i < placed.len() implies #[trigger] output_values(placed)[i]
        == rearranged(all, order)[i] by {
        assert(0 <= order[i] < placed.len());
    }
    assert(output_values(placed) =~= rearranged(all, order));
    lemma_sum_rearranged(all, order);
    lemma_sum_append(output_values(outputs), zeros);
    lemma_sum_zeros(zeros);
}

} // verus!
