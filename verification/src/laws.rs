//! What holds of a bundle from the first spend that is added to the last signature.

use crate::assembly::{
    build_answered, built, built_in_order, bvk_of, output_commitments, placed_at, spend_commitments,
    UnauthorizedBundle,
};
use crate::builder::{
    balance_converted, spend_checked, with_spend, BuilderState, SaplingMetadata,
    MIN_SHIELDED_OUTPUTS,
};
use crate::bundle::{Authorized, Bundle, OutputDescription};
use crate::error::Error;
use crate::in_progress::{InProgress, MaybeSigned, PartiallyAuthorized, Proven, Unsigned};
use crate::keys::{ExtendedSpendingKey, SpendAuthorizingKey};
use crate::note::{Protocol, Zip212Enforcement};
use crate::output_info::{
    describes_output, encrypted, is_dummy, no_memo, output_built, SaplingOutputInfo,
};
use crate::prover::{Output, OutputProver, SpendProver};
use crate::proving::now_proven;
use crate::random::{is_permutation, lemma_permutation_covers};
use crate::sapling_sighash_versioning::{version_byte, SaplingSighashVersion};
use crate::scalar::Fr;
use crate::signature::{
    binding_signature_accepted, randomized_key, spend_signature_accepted, Signature, SpendAuth,
};
use crate::signature_with_sighash_info::encoding;
use crate::signing::{
    all_appended, appended, applies_to, filled_in, finalized, keys_match, prepared, same_effects,
    same_spend, signable, signable_by_some, signatures_applied, signatures_valid, signed_with,
    spends_authorized,
};
use crate::spend_info::{spend_built, spends_with, SpendDescriptionInfo};
use crate::value::NoteValue;
use rand::rngs::StdRng;
use vstd::prelude::*;

verus! {

/// A spend whose path leads to another root than those before it is refused, whatever its
/// value.
pub proof fn law_other_anchor_is_refused(
    before: BuilderState,
    root: bls12_381::Scalar,
    value: NoteValue,
)
    requires
        before.anchor_differs(root),
    ensures
        spend_checked(before, root, value) == Err::<int, Error>(Error::AnchorMismatch),
{
}

/// The anchor that the first spend sets stays.
pub proof fn law_anchor_stays(
    before: BuilderState,
    root: bls12_381::Scalar,
    info: SpendDescriptionInfo,
)
    requires
        before.anchor is Some,
        spend_checked(before, root, info.note().value) is Ok,
    ensures
        with_spend(before, root, info).anchor == before.anchor,
{
}

/// Building fails for its amount exactly where the value balance cannot be had as that
/// amount, and draws nothing then. It is asked of the amount that no value is taken once and refused
/// another time.
pub proof fn law_build_fails_where_balance_fails<
    N: Protocol,
    SP: SpendProver,
    OP: OutputProver,
    V: TryFrom<i64>,
>(
    before: BuilderState,
    balance: Result<V, Error>,
    start: StdRng,
    answer: Result<Option<(UnauthorizedBundle<V>, SaplingMetadata)>, Error>,
    end: StdRng,
)
    requires
        forall|value: i64, taken: V, refused: <V as TryFrom<i64>>::Error|
            !(#[trigger] call_ensures(
                V::try_from,
                (value,),
                Ok::<V, <V as TryFrom<i64>>::Error>(taken),
            ) && #[trigger] call_ensures(
                V::try_from,
                (value,),
                Err::<V, <V as TryFrom<i64>>::Error>(refused),
            )),
        balance_converted(before.value_balance, balance),
        build_answered::<N, SP, OP, V>(before, start, answer, end),
    ensures
        (answer matches Err(error) && error == Error::InvalidAmount) <==> balance is Err,
        balance is Err ==> end == start,
{
}

/// An output without a memo is described as the same output with the memo that says so.
pub proof fn law_absent_memo_is_sent_as_such<N: Protocol, OP: OutputProver>(
    before: StdRng,
    absent: SaplingOutputInfo,
    given: SaplingOutputInfo,
    description: OutputDescription<Output>,
    after: StdRng,
)
    requires
        absent.memo() is None,
        given.memo() matches Some(memo) && memo@ == no_memo(),
        given.ovk() == absent.ovk(),
        given.note() == absent.note(),
        given.rcv() == absent.rcv(),
    ensures
        output_built::<N, OP>(before, absent, description, after) <==> output_built::<N, OP>(
            before,
            given,
            description,
            after,
        ),
{
    assert forall|encryptor: N::NoteEncryption, esk: Fr|
        #[trigger] encrypted::<N>(before, absent, description, encryptor, esk, after)
            == encrypted::<N>(before, given, description, encryptor, esk, after) by {}
    assert forall|encryptor: N::NoteEncryption, esk: Fr|
        #[trigger] encrypted::<N>(before, given, description, encryptor, esk, after)
            == encrypted::<N>(before, absent, description, encryptor, esk, after) by {}
}

/// All spends of a bundle have the anchor of the builder.
pub proof fn law_spends_share_anchor<
    N: Protocol,
    SP: SpendProver,
    OP: OutputProver,
    V: TryFrom<i64>,
>(
    before: BuilderState,
    start: StdRng,
    bundle: UnauthorizedBundle<V>,
    metadata: SaplingMetadata,
    end: StdRng,
)
    requires
        built::<N, SP, OP, V>(before, start, bundle, metadata, end),
    ensures
        forall|i: int|
            0 <= i < bundle.shielded_spends@.len() ==> (
            #[trigger] bundle.shielded_spends@[i]).anchor == before.anchor->0,
{
}

/// A bundle has as many spends as were added, and as many outputs as the builder
/// announces: those that were added, and at least two where there are spends.
pub proof fn law_bundle_size<N: Protocol, SP: SpendProver, OP: OutputProver, V: TryFrom<i64>>(
    before: BuilderState,
    start: StdRng,
    bundle: UnauthorizedBundle<V>,
    metadata: SaplingMetadata,
    end: StdRng,
)
    requires
        built::<N, SP, OP, V>(before, start, bundle, metadata, end),
    ensures
        bundle.shielded_spends@.len() == before.spends.len(),
        bundle.shielded_outputs@.len() == before.output_count(),
        bundle.shielded_outputs@.len() >= before.outputs.len(),
        before.spends.len() > 0 ==> bundle.shielded_outputs@.len() >= MIN_SHIELDED_OUTPUTS,
{
}

/// As many indices as there are places, all different, leave no place out.
proof fn lemma_every_place_taken<T>(items: Seq<T>, indices: Seq<usize>, placed: Seq<T>)
    requires
        placed_at(items, indices, placed),
        placed.len() == items.len(),
    ensures
        forall|i: int| 0 <= i < placed.len() ==> #[trigger] indices.contains(i as usize),
{
    let order = indices.map_values(|index: usize| index as int);
    assert(is_permutation(order, placed.len())) by {
        assert forall|i: int| 0 <= i < order.len() implies 0 <= #[trigger] order[i] < placed.len() by {
            assert(indices[i] < placed.len());
        }
        assert forall|i: int, j: int|
            0 <= i < order.len() && 0 <= j < order.len() && i != j implies #[trigger] order[i]
            != #[trigger] order[j] by {
            assert(indices[i] != indices[j]);
        }
    }
    lemma_permutation_covers(order, placed.len());
    assert forall|i: int| 0 <= i < placed.len() implies #[trigger] indices.contains(i as usize) by {
        assert(order.contains(i));
        let n = choose|n: int| 0 <= n < order.len() && order[n] == i;
        assert(indices[n] == i as usize);
    }
}

/// The metadata gives every spend that was added a place of its own, where its
/// description stands, and no description stands for anything else.
pub proof fn law_metadata_locates_spends<
    N: Protocol,
    SP: SpendProver,
    OP: OutputProver,
    V: TryFrom<i64>,
>(
    before: BuilderState,
    start: StdRng,
    bundle: UnauthorizedBundle<V>,
    metadata: SaplingMetadata,
    end: StdRng,
)
    requires
        built::<N, SP, OP, V>(before, start, bundle, metadata, end),
    ensures
        metadata.spend_indices().len() == before.spends.len(),
        forall|n: int|
            0 <= n < before.spends.len() ==> (#[trigger] metadata.spend_indices()[n])
                < bundle.shielded_spends@.len() && spend_built::<N, SP>(
                before.spends[n],
                before.anchor->0,
                bundle.shielded_spends@[metadata.spend_indices()[n] as int],
            ),
        metadata.spend_indices().no_duplicates(),
        forall|i: int|
            0 <= i < bundle.shielded_spends@.len()
                ==> #[trigger] metadata.spend_indices().contains(i as usize),
{
    let (spends, outputs) = choose|
        spends: Seq<SpendDescriptionInfo>,
        outputs: Seq<SaplingOutputInfo>,
    | #[trigger]
        built_in_order::<N, SP, OP, V>(before, spends, outputs, bundle, metadata);
    lemma_every_place_taken(before.spends, metadata.spend_indices(), spends);
}

/// The description is that of some dummy output.
pub open spec fn describes_dummy<N: Protocol, OP: OutputProver>(
    description: OutputDescription<Output>,
    zip212_enforcement: Zip212Enforcement,
) -> bool {
    exists|dummy: SaplingOutputInfo| #[trigger]
        is_dummy::<N>(dummy, zip212_enforcement) && describes_output::<N, OP>(dummy, description)
}

/// The metadata gives every output that was added a place of its own, where its
/// description stands, and every other description is that of a dummy output.
pub proof fn law_metadata_locates_outputs<
    N: Protocol,
    SP: SpendProver,
    OP: OutputProver,
    V: TryFrom<i64>,
>(
    before: BuilderState,
    start: StdRng,
    bundle: UnauthorizedBundle<V>,
    metadata: SaplingMetadata,
    end: StdRng,
)
    requires
        built::<N, SP, OP, V>(before, start, bundle, metadata, end),
    ensures
        metadata.output_indices().len() == before.outputs.len(),
        forall|n: int|
            0 <= n < before.outputs.len() ==> (#[trigger] metadata.output_indices()[n])
                < bundle.shielded_outputs@.len() && describes_output::<N, OP>(
                before.outputs[n],
                bundle.shielded_outputs@[metadata.output_indices()[n] as int],
            ),
        metadata.output_indices().no_duplicates(),
        forall|i: int|
            0 <= i < bundle.shielded_outputs@.len() ==> metadata.output_indices().contains(
                i as usize,
            ) || describes_dummy::<N, OP>(
                #[trigger] bundle.shielded_outputs@[i],
                before.zip212_enforcement,
            ),
{
    let (spends, outputs) = choose|
        spends: Seq<SpendDescriptionInfo>,
        outputs: Seq<SaplingOutputInfo>,
    | #[trigger]
        built_in_order::<N, SP, OP, V>(before, spends, outputs, bundle, metadata);
    assert forall|i: int|
        0 <= i < bundle.shielded_outputs@.len() implies metadata.output_indices().contains(
        i as usize,
    ) || describes_dummy::<N, OP>(
        #[trigger] bundle.shielded_outputs@[i],
        before.zip212_enforcement,
    ) by {
        assert(describes_output::<N, OP>(outputs[i], bundle.shielded_outputs@[i]));
        assert(metadata.output_indices().contains(i as usize) || is_dummy::<N>(
            outputs[i],
            before.zip212_enforcement,
        ));
    }
}

/// In a bundle that was built, the verification key of every spend is the one that its
/// signing parts give.
pub proof fn law_built_keys_match<N: Protocol, SP: SpendProver, OP: OutputProver, V: TryFrom<i64>>(
    before: BuilderState,
    start: StdRng,
    bundle: UnauthorizedBundle<V>,
    metadata: SaplingMetadata,
    end: StdRng,
)
    requires
        built::<N, SP, OP, V>(before, start, bundle, metadata, end),
    ensures
        keys_match(bundle),
{
}

/// Creating the proofs does not change the keys.
pub proof fn law_proofs_keep_keys<SP: SpendProver, OP: OutputProver, V>(
    spend_prover: SP,
    output_prover: OP,
    proofs_start: StdRng,
    proofs_end: StdRng,
    unproven: UnauthorizedBundle<V>,
    proven: Bundle<InProgress<Proven, Unsigned>, V>,
)
    requires
        now_proven(spend_prover, output_prover, proofs_start, unproven, proven, proofs_end),
        keys_match(unproven),
    ensures
        keys_match(proven),
{
    assert forall|i: int| 0 <= i < proven.shielded_spends@.len() implies (
    #[trigger] proven.shielded_spends@[i]).rk@ == randomized_key(
        proven.shielded_spends@[i].spend_auth_sig.ak()@,
        proven.shielded_spends@[i].spend_auth_sig.alpha()@,
    ) by {
        assert(unproven.shielded_spends@[i].rk == proven.shielded_spends@[i].rk);
    }
}

/// Neither proofs nor signatures change what the binding signature is checked with.
proof fn lemma_same_commitments<SP: SpendProver, OP: OutputProver, V>(
    spend_prover: SP,
    output_prover: OP,
    proofs_start: StdRng,
    proofs_end: StdRng,
    unproven: UnauthorizedBundle<V>,
    proven: Bundle<InProgress<Proven, Unsigned>, V>,
    authorized: Bundle<Authorized, V>,
)
    requires
        now_proven(spend_prover, output_prover, proofs_start, unproven, proven, proofs_end),
        same_effects(proven, authorized),
    ensures
        spend_commitments(authorized.shielded_spends@) == spend_commitments(
            unproven.shielded_spends@,
        ),
        output_commitments(authorized.shielded_outputs@) == output_commitments(
            unproven.shielded_outputs@,
        ),
{
    assert forall|i: int| 0 <= i < authorized.shielded_spends@.len() implies (
    #[trigger] authorized.shielded_spends@[i]).cv == unproven.shielded_spends@[i].cv by {
        assert(proven.shielded_spends@[i].cv == unproven.shielded_spends@[i].cv);
    }
    assert(spend_commitments(authorized.shielded_spends@) =~= spend_commitments(
        unproven.shielded_spends@,
    ));
    assert(output_commitments(authorized.shielded_outputs@) =~= output_commitments(
        unproven.shielded_outputs@,
    ));
}

/// Of a bundle that was built, proven and signed with [`Bundle::apply_signatures`], the
/// verification key of every spend accepts its signature, and the key that the
/// commitments and the value balance give accepts the binding signature.
pub proof fn law_authorized_bundle_verifies<
    N: Protocol,
    SP: SpendProver,
    OP: OutputProver,
    V: TryFrom<i64>,
>(
    before: BuilderState,
    start: StdRng,
    unproven: UnauthorizedBundle<V>,
    metadata: SaplingMetadata,
    end: StdRng,
    spend_prover: SP,
    output_prover: OP,
    proofs_start: StdRng,
    proofs_end: StdRng,
    proven: Bundle<InProgress<Proven, Unsigned>, V>,
    sighash: Seq<u8>,
    authorized: Bundle<Authorized, V>,
)
    requires
        built::<N, SP, OP, V>(before, start, unproven, metadata, end),
        now_proven(spend_prover, output_prover, proofs_start, unproven, proven, proofs_end),
        signatures_applied(proven, sighash, authorized),
    ensures
        authorized.value_balance == unproven.value_balance,
        spends_authorized(authorized, sighash),
        binding_signature_accepted(
            bvk_of(
                spend_commitments(authorized.shielded_spends@),
                output_commitments(authorized.shielded_outputs@),
                before.value_balance,
            ),
            sighash,
            authorized.authorization.binding_sig@,
        ),
{
    law_built_keys_match::<N, SP, OP, V>(before, start, unproven, metadata, end);
    law_proofs_keep_keys(spend_prover, output_prover, proofs_start, proofs_end, unproven, proven);
    lemma_same_commitments(
        spend_prover,
        output_prover,
        proofs_start,
        proofs_end,
        unproven,
        proven,
        authorized,
    );
    assert forall|i: int|
        0 <= i < authorized.shielded_spends@.len() implies spend_signature_accepted(
        (#[trigger] authorized.shielded_spends@[i]).rk@,
        sighash,
        authorized.shielded_spends@[i].spend_auth_sig@,
    ) by {
        assert(authorized.shielded_spends@[i].rk == proven.shielded_spends@[i].rk);
    }
}

/// The same holds of a bundle that was prepared, signed in any number of steps, and
/// finalized: all its signatures are over the sighash that it was prepared with.
pub proof fn law_finalized_bundle_verifies<
    N: Protocol,
    SP: SpendProver,
    OP: OutputProver,
    V: TryFrom<i64>,
>(
    before: BuilderState,
    start: StdRng,
    unproven: UnauthorizedBundle<V>,
    metadata: SaplingMetadata,
    end: StdRng,
    spend_prover: SP,
    output_prover: OP,
    proofs_start: StdRng,
    proofs_end: StdRng,
    proven: Bundle<InProgress<Proven, Unsigned>, V>,
    sighash: Seq<u8>,
    first: Bundle<InProgress<Proven, PartiallyAuthorized>, V>,
    last: Bundle<InProgress<Proven, PartiallyAuthorized>, V>,
    authorized: Bundle<Authorized, V>,
)
    requires
        built::<N, SP, OP, V>(before, start, unproven, metadata, end),
        now_proven(spend_prover, output_prover, proofs_start, unproven, proven, proofs_end),
        prepared(proven, sighash, first),
        same_effects(first, last),
        last.authorization == first.authorization,
        signatures_valid(last),
        finalized(last, authorized),
    ensures
        authorized.value_balance == unproven.value_balance,
        spends_authorized(authorized, sighash),
        binding_signature_accepted(
            bvk_of(
                spend_commitments(authorized.shielded_spends@),
                output_commitments(authorized.shielded_outputs@),
                before.value_balance,
            ),
            sighash,
            authorized.authorization.binding_sig@,
        ),
{
    assert forall|i: int| 0 <= i < proven.shielded_spends@.len() implies same_spend(
        proven.shielded_spends@[i],
        #[trigger] authorized.shielded_spends@[i],
    ) by {
        assert(same_spend(proven.shielded_spends@[i], first.shielded_spends@[i]));
        assert(same_spend(first.shielded_spends@[i], last.shielded_spends@[i]));
        assert(same_spend(last.shielded_spends@[i], authorized.shielded_spends@[i]));
    }
    lemma_same_commitments(
        spend_prover,
        output_prover,
        proofs_start,
        proofs_end,
        unproven,
        proven,
        authorized,
    );
    assert forall|i: int|
        0 <= i < authorized.shielded_spends@.len() implies spend_signature_accepted(
        (#[trigger] authorized.shielded_spends@[i]).rk@,
        sighash,
        authorized.shielded_spends@[i].spend_auth_sig@,
    ) by {
        assert(same_spend(last.shielded_spends@[i], authorized.shielded_spends@[i]));
    }
}

/// The spend authorizing keys of the notes that were added can sign every spend of the
/// bundle, so that [`Bundle::apply_signatures`] succeeds with them.
pub proof fn law_spending_keys_sign_everything<
    N: Protocol,
    SP: SpendProver,
    OP: OutputProver,
    V: TryFrom<i64>,
>(
    before: BuilderState,
    start: StdRng,
    unproven: UnauthorizedBundle<V>,
    metadata: SaplingMetadata,
    end: StdRng,
    spend_prover: SP,
    output_prover: OP,
    proofs_start: StdRng,
    proofs_end: StdRng,
    proven: Bundle<InProgress<Proven, Unsigned>, V>,
    extsks: Seq<ExtendedSpendingKey>,
    keys: Seq<SpendAuthorizingKey>,
)
    requires
        built::<N, SP, OP, V>(before, start, unproven, metadata, end),
        now_proven(spend_prover, output_prover, proofs_start, unproven, proven, proofs_end),
        forall|n: int|
            0 <= n < before.spends.len() ==> spends_with(
                #[trigger] before.spends[n],
                extsks[n],
                before.spends[n].note(),
                before.spends[n].merkle_path(),
            ) && keys.contains(extsks[n].expsk.ask),
    ensures
        forall|i: int|
            0 <= i < proven.shielded_spends@.len() ==> signable_by_some(
                (#[trigger] proven.shielded_spends@[i]).spend_auth_sig,
                keys,
            ),
{
    law_metadata_locates_spends::<N, SP, OP, V>(before, start, unproven, metadata, end);
    assert forall|i: int| 0 <= i < proven.shielded_spends@.len() implies signable_by_some(
        (#[trigger] proven.shielded_spends@[i]).spend_auth_sig,
        keys,
    ) by {
        let indices = metadata.spend_indices();
        assert(proven.shielded_spends.len() == proven.shielded_spends@.len());
        assert(indices.contains(i as usize));
        let n = choose|n: int| 0 <= n < indices.len() && indices[n] == i as usize;
        assert(indices[n] < unproven.shielded_spends@.len());
        assert(spends_with(
            before.spends[n],
            extsks[n],
            before.spends[n].note(),
            before.spends[n].merkle_path(),
        ));
        let k = choose|k: int| 0 <= k < keys.len() && keys[k] == extsks[n].expsk.ask;
        assert(signable(proven.shielded_spends@[i].spend_auth_sig, keys[k]@));
    }
}

/// A spend that is signed stays as it is, whatever key is used next.
pub proof fn law_signature_stays(
    signature: Signature<SpendAuth>,
    sighash: Seq<u8>,
    ask: nat,
    after: MaybeSigned,
)
    requires
        signed_with(MaybeSigned::Signature(signature), sighash, ask, after),
    ensures
        after == MaybeSigned::Signature(signature),
{
}

/// Signing again with the same key changes nothing.
pub proof fn law_signing_again_changes_nothing(
    before: MaybeSigned,
    sighash: Seq<u8>,
    ask: nat,
    once: MaybeSigned,
    twice: MaybeSigned,
)
    requires
        signed_with(before, sighash, ask, once),
        signed_with(once, sighash, ask, twice),
    ensures
        twice == once,
{
}

/// A signature that signing makes for a spend can also be appended to that spend.
pub proof fn law_own_signature_applies(
    rk: Seq<u8>,
    before: MaybeSigned,
    sighash: Seq<u8>,
    ask: nat,
    signature: Signature<SpendAuth>,
)
    requires
        before is SigningMetadata,
        signed_with(before, sighash, ask, MaybeSigned::Signature(signature)),
    ensures
        applies_to(rk, before, sighash, signature),
{
}

/// A signature that is appended stands at the one spend for which it is valid, and
/// changes no other.
pub proof fn law_appended_signature_signs_one(
    rks: Seq<Seq<u8>>,
    maybes: Seq<MaybeSigned>,
    sighash: Seq<u8>,
    signature: Signature<SpendAuth>,
    next: Seq<MaybeSigned>,
)
    requires
        appended(rks, maybes, sighash, signature) == Ok::<Seq<MaybeSigned>, Error>(next),
    ensures
        exists|i: int|
            0 <= i < maybes.len() && applies_to(rks[i], #[trigger] maybes[i], sighash, signature)
                && next == maybes.update(i, MaybeSigned::Signature(signature)),
{
    let i = choose|i: int|
        0 <= i < maybes.len() && applies_to(rks[i], #[trigger] maybes[i], sighash, signature);
    assert forall|j: int| 0 <= j < maybes.len() && j != i implies !applies_to(
        rks[j],
        #[trigger] maybes[j],
        sighash,
        signature,
    ) by {
        assert(maybes[i] == maybes[i]);
    }
    assert(next =~= maybes.update(i, MaybeSigned::Signature(signature)));
}

/// A signature that is valid for one spend and for no other can be appended again, and
/// changes nothing then.
pub proof fn law_appending_again_changes_nothing(
    rks: Seq<Seq<u8>>,
    maybes: Seq<MaybeSigned>,
    sighash: Seq<u8>,
    signature: Signature<SpendAuth>,
    next: Seq<MaybeSigned>,
)
    requires
        forall|i: int|
            0 <= i < maybes.len() ==> ((#[trigger] maybes[i]) matches MaybeSigned::SigningMetadata(
                parts,
            ) ==> rks[i] == randomized_key(parts.ak()@, parts.alpha()@)),
        appended(rks, maybes, sighash, signature) == Ok::<Seq<MaybeSigned>, Error>(next),
    ensures
        appended(rks, next, sighash, signature) == Ok::<Seq<MaybeSigned>, Error>(next),
        all_appended(rks, maybes, sighash, seq![signature, signature]) == Ok::<
            Seq<MaybeSigned>,
            Error,
        >(next),
{
    assert forall|i: int| 0 <= i < maybes.len() implies applies_to(
        rks[i],
        #[trigger] next[i],
        sighash,
        signature,
    ) == applies_to(rks[i], maybes[i], sighash, signature) by {}
    let k = choose|k: int|
        0 <= k < maybes.len() && applies_to(rks[k], #[trigger] maybes[k], sighash, signature);
    assert(applies_to(rks[k], next[k], sighash, signature));
    assert forall|i: int, j: int| 0 <= i < j < next.len() implies !(applies_to(
        rks[i],
        #[trigger] next[i],
        sighash,
        signature,
    ) && applies_to(rks[j], #[trigger] next[j], sighash, signature)) by {
        assert(maybes[i] == maybes[i] && maybes[j] == maybes[j]);
    }
    assert(filled_in(rks, next, sighash, signature) =~= next);
    let twice = seq![signature, signature];
    reveal_with_fuel(all_appended, 3);
    assert(twice.drop_first() =~= seq![signature]);
}

/// The two versions have different encodings.
pub proof fn law_versions_differ(a: SaplingSighashVersion, b: SaplingSighashVersion)
    requires
        version_byte(a) == version_byte(b),
    ensures
        a == b,
{
}

/// Version zero is encoded as 0, and no version as 255.
pub proof fn law_version_bytes()
    ensures
        version_byte(SaplingSighashVersion::V0) == 0,
        version_byte(SaplingSighashVersion::NoVersion) == 255,
{
}

/// An encoded signature starts with the version, ends with the signature, and has the
/// associated information in between.
pub proof fn law_encoding_has_parts(
    version: u8,
    associated_information: Seq<u8>,
    signature: Seq<u8>,
)
    ensures
        ({
            let bytes = encoding(version, associated_information, signature);
            let middle = 1 + associated_information.len() as int;
            &&& bytes.len() == middle + signature.len()
            &&& bytes[0] == version
            &&& bytes.subrange(1, middle) == associated_information
            &&& bytes.skip(middle) == signature
        }),
{
    let bytes = encoding(version, associated_information, signature);
    let middle = 1 + associated_information.len() as int;
    assert(bytes.subrange(1, middle) =~= associated_information);
    assert(bytes.skip(middle) =~= signature);
}

} // verus!
