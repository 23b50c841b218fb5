//! What holds of adding spends and outputs and of building a bundle from them, said of the
//! notes, memos and paths that go in and of the descriptions that come out.

use crate::assembly::{
    arranged, build_answered, built, built_in_order, bvk_of, described_through, filled_up,
    filled_up_through, output_commitments, outputs_described, padded_to, spend_commitments,
    taken_apart, with_positions, UnauthorizedBundle,
};
use crate::builder::{
    balance_converted, output_checked, output_values, root_computed, spend_checked, spend_values,
    with_output, with_spend, BuilderState, SaplingMetadata,
};
use crate::bundle::{Authorization, OutputDescription, SpendDescription};
use crate::error::Error;
use crate::keys::{ExtendedSpendingKey, NullifierDerivingKey, OutgoingViewingKey};
use crate::laws::{law_metadata_locates_outputs, law_metadata_locates_spends};
use crate::note::{
    draw_encryption, draw_out_ciphertext, encryption_drawn, out_ciphertext_drawn, rseed_drawn,
    Diversifier, ExtractedNoteCommitment, MerklePath, Note, PaymentAddress, Protocol, Rseed,
    SaplingIvk, Zip212Enforcement,
};
use crate::output_info::{
    address_drawn, describes_output, drawn_until, dummy_drawn, encrypted, is_dummy, no_memo,
    output_built, output_circuit_prepared, output_drawn, pair_drawn, sent_memo, SaplingOutputInfo,
};
use crate::point::{
    point_difference, point_multiple, point_sum, PROOF_GENERATION_KEY_GENERATOR,
    VALUE_COMMITMENT_RANDOMNESS_GENERATOR, VALUE_COMMITMENT_VALUE_GENERATOR,
};
use crate::prover::{Output, OutputProver, SpendProver};
use crate::random::{bytes_drawn, law_order_is_drawn, shuffle_drawn, Drawn};
use crate::scalar::{scalar_drawn, Fr};
use crate::signature::{binding_verification_key, randomized_key, spend_verification_key};
use crate::spend_info::{circuit_prepared, spend_built, spend_drawn, SpendDescriptionInfo};
use crate::sums::sum;
use crate::value::{commitment_total, trapdoor_drawn, without_balance, NoteValue};
use rand::rngs::StdRng;
use vstd::prelude::*;

verus! {

/// A spend is accepted exactly where its root is that of the spends before it and the balance
/// with it is an `i64`, whatever the sign of the balance so far. The answer is that balance. A
/// refusal for the root comes first.
pub proof fn law_which_spends_are_accepted(
    before: BuilderState,
    root: bls12_381::Scalar,
    value: NoteValue,
)
    ensures
        spend_checked(before, root, value) is Ok <==> (before.anchor is None || before.anchor
            == Some(root)) && -0x8000_0000_0000_0000 <= before.value_balance + value@
            <= 0x7fff_ffff_ffff_ffff,
        spend_checked(before, root, value) matches Ok(balance) ==> balance == before.value_balance
            + value@,
        before.anchor is Some && before.anchor != Some(root) ==> spend_checked(before, root, value)
            == Err::<int, Error>(Error::AnchorMismatch),
        (before.anchor is None || before.anchor == Some(root)) && spend_checked(
            before,
            root,
            value,
        ) is Err ==> spend_checked(before, root, value) == Err::<int, Error>(
            Error::InvalidAmount,
        ),
{
}

/// An output is accepted exactly where the balance with it is an `i64`. The answer is that
/// balance.
pub proof fn law_which_outputs_are_accepted(before: BuilderState, value: NoteValue)
    ensures
        output_checked(before, value) is Ok <==> -0x8000_0000_0000_0000 <= before.value_balance
            - value@ <= 0x7fff_ffff_ffff_ffff,
        output_checked(before, value) matches Ok(balance) ==> balance == before.value_balance
            - value@,
        output_checked(before, value) matches Err(error) ==> error == Error::InvalidAmount,
{
}

/// A spend that is added comes after those before it and counts with the value of its note.
/// Nothing else changes but for the anchor, which is the root of its path.
pub proof fn law_added_spend_is_counted(
    before: BuilderState,
    root: bls12_381::Scalar,
    info: SpendDescriptionInfo,
)
    ensures
        ({
            let after = with_spend(before, root, info);
            &&& after.spends.len() == before.spends.len() + 1
            &&& after.spends.take(before.spends.len() as int) == before.spends
            &&& after.spends[before.spends.len() as int] == info
            &&& after.value_balance - before.value_balance == info.note().value@
            &&& after.anchor == Some(root)
            &&& after.outputs == before.outputs
            &&& after.zip212_enforcement == before.zip212_enforcement
        }),
{
    assert(with_spend(before, root, info).spends.take(before.spends.len() as int)
        =~= before.spends);
}

/// An output that is added comes after those before it and counts with its value. Nothing
/// else changes.
pub proof fn law_added_output_is_counted(before: BuilderState, info: SaplingOutputInfo)
    ensures
        ({
            let after = with_output(before, info);
            &&& after.outputs.len() == before.outputs.len() + 1
            &&& after.outputs.take(before.outputs.len() as int) == before.outputs
            &&& after.outputs[before.outputs.len() as int] == info
            &&& before.value_balance - after.value_balance == info.note().value@
            &&& after.anchor == before.anchor
            &&& after.spends == before.spends
            &&& after.zip212_enforcement == before.zip212_enforcement
        }),
{
    assert(with_output(before, info).outputs.take(before.outputs.len() as int)
        =~= before.outputs);
}

/// The value balance of a builder is what its notes to spend are worth, less what its outputs
/// are worth; it is an `i64`; and there is an anchor exactly where there are spends.
pub proof fn law_balance_is_net_value(state: BuilderState)
    requires
        state.well_formed(),
    ensures
        state.value_balance == sum(
            Seq::new(state.spends.len(), |i: int| state.spends[i].note().value@ as int),
        ) - sum(Seq::new(state.outputs.len(), |i: int| state.outputs[i].note().value@ as int)),
        -0x8000_0000_0000_0000 <= state.value_balance <= 0x7fff_ffff_ffff_ffff,
        state.anchor is Some <==> state.spends.len() > 0,
{
    assert(spend_values(state.spends) =~= Seq::new(
        state.spends.len(),
        |i: int| state.spends[i].note().value@ as int,
    ));
    assert(output_values(state.outputs) =~= Seq::new(
        state.outputs.len(),
        |i: int| state.outputs[i].note().value@ as int,
    ));
}

/// The value balance becomes an amount exactly as the amount's own conversion has it. Where
/// the balance is an `i64`, only that conversion can refuse it.
pub proof fn law_balance_is_converted<V: TryFrom<i64>>(
    value_balance: int,
    converted: Result<V, Error>,
)
    requires
        -0x8000_0000_0000_0000 <= value_balance <= 0x7fff_ffff_ffff_ffff,
    ensures
        balance_converted(value_balance, converted) <==> match converted {
            Ok(v) => call_ensures(
                V::try_from,
                (value_balance as i64,),
                Ok::<V, <V as TryFrom<i64>>::Error>(v),
            ),
            Err(error) => error == Error::InvalidAmount && exists|
                refused: <V as TryFrom<i64>>::Error,
            | #[trigger]
                call_ensures(
                    V::try_from,
                    (value_balance as i64,),
                    Err::<V, <V as TryFrom<i64>>::Error>(refused),
                ),
        },
{
}

/// The root of a path is computed from the commitment of the note and that very path.
pub proof fn law_root_is_that_of_note_and_path<N: Protocol>(
    note: Note,
    merkle_path: MerklePath,
    root: bls12_381::Scalar,
)
    requires
        root_computed::<N>(note, merkle_path, root),
    ensures
        exists|cmu: ExtractedNoteCommitment|
            call_ensures(N::cmu, (&note,), cmu) && #[trigger] call_ensures(
                N::root,
                (&merkle_path, &cmu),
                root,
            ),
{
}

/// The randomness of a spend is two scalars that the generator gives one after the other:
/// first the randomizer, then the trapdoor of the commitment. Note, path and keys are those
/// that were given.
pub proof fn law_spend_is_drawn(
    before: StdRng,
    extsk: ExtendedSpendingKey,
    note: Note,
    merkle_path: MerklePath,
    info: SpendDescriptionInfo,
    after: StdRng,
)
    requires
        spend_drawn(before, extsk, note, merkle_path, info, after),
    ensures
        info.note() == note,
        info.merkle_path() == merkle_path,
        info.proof_generation_key().ak@ == spend_verification_key(extsk.expsk.ask@),
        info.proof_generation_key().nsk == extsk.expsk.nsk,
        exists|between: StdRng| #[trigger]
            scalar_drawn(before, info.alpha(), between) && trapdoor_drawn(
                between,
                info.rcv(),
                after,
            ),
{
}

/// The randomness of an output is what the generator gives for its note and then a trapdoor.
/// Address, value, memo and key are those that were given.
pub proof fn law_output_is_drawn(
    before: StdRng,
    ovk: Option<OutgoingViewingKey>,
    to: PaymentAddress,
    value: NoteValue,
    memo: Option<[u8; 512]>,
    zip212_enforcement: Zip212Enforcement,
    info: SaplingOutputInfo,
    after: StdRng,
)
    requires
        output_drawn(before, ovk, to, value, memo, zip212_enforcement, info, after),
    ensures
        info.ovk() == ovk,
        info.note().recipient == to,
        info.note().value == value,
        info.memo() == memo,
        exists|between: StdRng|
            {
                &&& match info.note().rseed {
                    Rseed::BeforeZip212(rcm) => zip212_enforcement == Zip212Enforcement::Off
                        && scalar_drawn(before, rcm, between),
                    Rseed::AfterZip212(seed) => zip212_enforcement != Zip212Enforcement::Off
                        && bytes_drawn(before, seed, between),
                }
                &&& #[trigger] trapdoor_drawn(between, info.rcv(), after)
            },
{
}

/// Pairs of 11 bytes and a scalar are drawn until one has an address, and that address is the
/// one. Where none has, it was tried `u64::MAX` times. Returned are the states of the
/// generator before each of the draws and after the last, and what was drawn.
pub proof fn law_first_address_is_taken<N: Protocol>(
    before: StdRng,
    address: Option<PaymentAddress>,
    after: StdRng,
) -> (draws: (Seq<StdRng>, Seq<StdRng>, Seq<Diversifier>, Seq<SaplingIvk>))
    requires
        address_drawn::<N>(before, address, after),
    ensures
        ({
            let (states, between, diversifiers, ivks) = draws;
            let n = ivks.len() as int;
            &&& n > 0
            &&& diversifiers.len() == n
            &&& between.len() == n
            &&& states.len() == n + 1
            &&& states[0] == before
            &&& states[n] == after
            &&& forall|i: int|
                0 <= i < n ==> bytes_drawn(states[i], diversifiers[i].0, #[trigger] between[i])
                    && scalar_drawn(between[i], ivks[i].0, states[i + 1])
            &&& forall|i: int|
                0 <= i < n - 1 ==> call_ensures(
                    N::to_payment_address,
                    (&(#[trigger] ivks[i]), diversifiers[i]),
                    None::<PaymentAddress>,
                )
            &&& call_ensures(
                N::to_payment_address,
                (&ivks[n - 1], diversifiers[n - 1]),
                address,
            )
            &&& address is None ==> n == 0xffff_ffff_ffff_ffff
        }),
{
    let (states, pairs) = choose|
        states: Seq<StdRng>,
        pairs: Seq<(SaplingIvk, Diversifier)>,
    | #[trigger]
        drawn_until::<N>(before, states, pairs, address, after);
    let ivks = Seq::new(pairs.len(), |i: int| pairs[i].0);
    let diversifiers = Seq::new(pairs.len(), |i: int| pairs[i].1);
    let between = Seq::new(
        pairs.len(),
        |i: int|
            choose|middle: StdRng| #[trigger]
                bytes_drawn(states[i], (pairs[i].1).0, middle) && scalar_drawn(
                    middle,
                    (pairs[i].0).0,
                    states[i + 1],
                ),
    );
    assert forall|i: int| 0 <= i < ivks.len() implies bytes_drawn(
        states[i],
        diversifiers[i].0,
        #[trigger] between[i],
    ) && scalar_drawn(between[i], ivks[i].0, states[i + 1]) by {
        assert(pair_drawn(states[i], pairs[i], states[i + 1]));
    }
    assert forall|i: int| 0 <= i < ivks.len() - 1 implies call_ensures(
        N::to_payment_address,
        (&(#[trigger] ivks[i]), diversifiers[i]),
        None::<PaymentAddress>,
    ) by {
        assert(pairs[i] == (ivks[i], diversifiers[i]));
    }
    assert(pairs.last() == (ivks[ivks.len() - 1], diversifiers[ivks.len() - 1]));
    (states, between, diversifiers, ivks)
}

/// A dummy has no value, no memo and no outgoing viewing key. Its address is drawn first, and
/// then its randomness.
pub proof fn law_dummy_is_drawn<N: Protocol>(
    before: StdRng,
    zip212_enforcement: Zip212Enforcement,
    info: SaplingOutputInfo,
    after: StdRng,
)
    requires
        dummy_drawn::<N>(before, zip212_enforcement, info, after),
    ensures
        info.note().value@ == 0,
        info.ovk() is None,
        info.memo() is None,
        (info.note().rseed is BeforeZip212) == (zip212_enforcement == Zip212Enforcement::Off),
        exists|addressed: StdRng, between: StdRng|
            {
                &&& #[trigger] address_drawn::<N>(
                    before,
                    Some(info.note().recipient),
                    addressed,
                )
                &&& rseed_drawn(addressed, zip212_enforcement, info.note().rseed, between)
                &&& #[trigger] trapdoor_drawn(between, info.rcv(), after)
            },
{
}

/// What a memo is sent as: as it is, in all its 512 bytes, where there is one; and as `0xf6`
/// and 511 zeros where there is none.
pub proof fn law_memo_is_sent_as_it_is(info: SaplingOutputInfo)
    ensures
        sent_memo(info).len() == 512,
        info.memo() matches Some(memo) ==> forall|i: int|
            0 <= i < 512 ==> #[trigger] sent_memo(info)[i] == memo@[i],
        info.memo() is None ==> sent_memo(info)[0] == 0xf6u8 && forall|i: int|
            1 <= i < 512 ==> #[trigger] sent_memo(info)[i] == 0u8,
        no_memo().len() == 512,
        no_memo()[0] == 0xf6u8,
        forall|i: int| 1 <= i < 512 ==> #[trigger] no_memo()[i] == 0u8,
{
}

/// What an output is made into. Its commitment is to its value; its note commitment is what
/// the protocol makes of its note. The note is encrypted with the key and the memo that were
/// given, and the ephemeral key and both ciphertexts are those of that encryption. The circuit
/// is prepared for the address, the value and the trapdoor of the output. The generator is
/// handed to the encryption, then to the outgoing ciphertext, and to nothing else. Returned
/// are the memo that is sent, the encryption, its secret key, the trapdoor of the note
/// commitment, and the generator between its two uses.
pub proof fn law_output_is_described<N: Protocol, OP: OutputProver>(
    before: StdRng,
    info: SaplingOutputInfo,
    description: OutputDescription<Output>,
    after: StdRng,
) -> (parts: ([u8; 512], N::NoteEncryption, Fr, Fr, StdRng))
    requires
        output_built::<N, OP>(before, info, description, after),
    ensures
        ({
            let (memo, encryption, esk, rcm, between) = parts;
            &&& info.memo() matches Some(given) ==> memo@ == given@
            &&& info.memo() is None ==> memo@[0] == 0xf6u8 && forall|i: int|
                1 <= i < 512 ==> #[trigger] memo@[i] == 0u8
            &&& exists|used: &mut StdRng|
                *used == before && *final(used) == between && #[trigger] call_ensures(
                    N::note_encryption,
                    (info.ovk(), info.note(), memo, used),
                    encryption,
                )
            &&& exists|used: &mut StdRng|
                *used == between && *final(used) == after && #[trigger] call_ensures(
                    N::encrypt_outgoing_plaintext,
                    (&encryption, &description.cv, &description.cmu, used),
                    description.out_ciphertext,
                )
            &&& description.cv@ == point_sum(
                point_multiple(VALUE_COMMITMENT_VALUE_GENERATOR@, info.note().value@ as int),
                point_multiple(VALUE_COMMITMENT_RANDOMNESS_GENERATOR@, info.rcv()@ as int),
            )
            &&& call_ensures(N::cmu, (&info.note(),), description.cmu)
            &&& call_ensures(N::epk, (&encryption,), description.ephemeral_key)
            &&& call_ensures(N::encrypt_note_plaintext, (&encryption,), description.enc_ciphertext)
            &&& call_ensures(N::esk, (&encryption,), esk)
            &&& call_ensures(N::rcm, (&info.note(),), rcm)
            &&& call_ensures(
                OP::prepare_circuit,
                (esk, info.note().recipient, rcm, info.note().value, info.rcv()),
                description.zkproof,
            )
        }),
{
    let (encryption, esk) = choose|encryption: N::NoteEncryption, esk: Fr| #[trigger]
        encrypted::<N>(before, info, description, encryption, esk, after)
            && output_circuit_prepared::<N, OP>(info, esk, description.zkproof);
    let (memo, between) = choose|memo: [u8; 512], between: StdRng|
        {
            &&& memo@ == sent_memo(info)
            &&& #[trigger] encryption_drawn::<N>(
                before,
                info.ovk(),
                info.note(),
                memo,
                encryption,
                between,
            )
            &&& out_ciphertext_drawn::<N>(
                between,
                encryption,
                description.cv,
                description.cmu,
                description.out_ciphertext,
                after,
            )
        };
    let rcm = choose|rcm: Fr|
        call_ensures(N::rcm, (&info.note(),), rcm) && #[trigger] call_ensures(
            OP::prepare_circuit,
            (esk, info.note().recipient, rcm, info.note().value, info.rcv()),
            description.zkproof,
        );
    law_memo_is_sent_as_it_is(info);
    assert(call_ensures(
        draw_encryption::<N>,
        (info.ovk(), info.note(), memo, before),
        Drawn { value: encryption, rng: between },
    ));
    assert(call_ensures(
        draw_out_ciphertext::<N>,
        (&encryption, &description.cv, &description.cmu, between),
        Drawn { value: description.out_ciphertext, rng: after },
    ));
    let first = choose|used: &mut StdRng|
        *used == before && *final(used) == between && #[trigger] call_ensures(
            N::note_encryption,
            (info.ovk(), info.note(), memo, used),
            encryption,
        );
    assert(call_ensures(
        N::note_encryption,
        (info.ovk(), info.note(), memo, first),
        encryption,
    ));
    let second = choose|used: &mut StdRng|
        *used == between && *final(used) == after && #[trigger] call_ensures(
            N::encrypt_outgoing_plaintext,
            (&encryption, &description.cv, &description.cmu, used),
            description.out_ciphertext,
        );
    assert(call_ensures(
        N::encrypt_outgoing_plaintext,
        (&encryption, &description.cv, &description.cmu, second),
        description.out_ciphertext,
    ));
    (memo, encryption, esk, rcm, between)
}

/// The n-th output that was added stands in the bundle where the metadata says, with the
/// commitment, note commitment, ephemeral key, ciphertexts and circuit that are made of the
/// address, value, memo and key it was added with.
pub proof fn law_added_output_is_in_bundle<
    N: Protocol,
    SP: SpendProver,
    OP: OutputProver,
    V: TryFrom<i64>,
>(
    before: BuilderState,
    start: StdRng,
    bundle: UnauthorizedBundle<V>,
    metadata: SaplingMetadata,
    end: StdRng,
    n: int,
) -> (parts: ([u8; 512], N::NoteEncryption, Fr, Fr))
    requires
        built::<N, SP, OP, V>(before, start, bundle, metadata, end),
        0 <= n < before.outputs.len(),
    ensures
        0 <= metadata.output_indices()[n] < bundle.shielded_outputs@.len(),
        before.outputs[n].memo() matches Some(given) ==> parts.0@ == given@,
        before.outputs[n].memo() is None ==> parts.0@[0] == 0xf6u8 && forall|i: int|
            1 <= i < 512 ==> #[trigger] parts.0@[i] == 0u8,
        exists|used: &mut StdRng| #[trigger]
            call_ensures(
                N::note_encryption,
                (before.outputs[n].ovk(), before.outputs[n].note(), parts.0, used),
                parts.1,
            ),
        ({
            let description = bundle.shielded_outputs@[metadata.output_indices()[n] as int];
            exists|used: &mut StdRng| #[trigger]
                call_ensures(
                    N::encrypt_outgoing_plaintext,
                    (&parts.1, &description.cv, &description.cmu, used),
                    description.out_ciphertext,
                )
        }),
        ({
            let (memo, encryption, esk, rcm) = parts;
            let info = before.outputs[n];
            let description = bundle.shielded_outputs@[metadata.output_indices()[n] as int];
            &&& description.cv@ == point_sum(
                point_multiple(VALUE_COMMITMENT_VALUE_GENERATOR@, info.note().value@ as int),
                point_multiple(VALUE_COMMITMENT_RANDOMNESS_GENERATOR@, info.rcv()@ as int),
            )
            &&& call_ensures(N::cmu, (&info.note(),), description.cmu)
            &&& call_ensures(N::epk, (&encryption,), description.ephemeral_key)
            &&& call_ensures(N::encrypt_note_plaintext, (&encryption,), description.enc_ciphertext)
            &&& call_ensures(N::esk, (&encryption,), esk)
            &&& call_ensures(N::rcm, (&info.note(),), rcm)
            &&& call_ensures(
                OP::prepare_circuit,
                (esk, info.note().recipient, rcm, info.note().value, info.rcv()),
                description.zkproof,
            )
        }),
{
    law_metadata_locates_outputs::<N, SP, OP, V>(before, start, bundle, metadata, end);
    let info = before.outputs[n];
    let description = bundle.shielded_outputs@[metadata.output_indices()[n] as int];
    let (from, to) = choose|from: StdRng, to: StdRng| #[trigger]
        output_built::<N, OP>(from, info, description, to);
    let (memo, encryption, esk, rcm, between) = law_output_is_described::<N, OP>(
        from,
        info,
        description,
        to,
    );
    let parts = (memo, encryption, esk, rcm);
    let first = choose|used: &mut StdRng|
        *used == from && *final(used) == between && #[trigger] call_ensures(
            N::note_encryption,
            (info.ovk(), info.note(), memo, used),
            encryption,
        );
    assert(call_ensures(
        N::note_encryption,
        (before.outputs[n].ovk(), before.outputs[n].note(), parts.0, first),
        parts.1,
    ));
    let second = choose|used: &mut StdRng|
        *used == between && *final(used) == to && #[trigger] call_ensures(
            N::encrypt_outgoing_plaintext,
            (&encryption, &description.cv, &description.cmu, used),
            description.out_ciphertext,
        );
    assert(call_ensures(
        N::encrypt_outgoing_plaintext,
        (&parts.1, &description.cv, &description.cmu, second),
        description.out_ciphertext,
    ));
    parts
}

/// The n-th spend that was added stands in the bundle where the metadata says. Its commitment
/// is to the value of the note, its nullifier is that of the note at the position of its path,
/// its verification key is that of the spending key, randomized, and its circuit is prepared
/// for the note and the very path that was given. The anchor is that of the builder. Returned
/// is the nullifier deriving key.
pub proof fn law_added_spend_is_in_bundle<
    N: Protocol,
    SP: SpendProver,
    OP: OutputProver,
    V: TryFrom<i64>,
>(
    before: BuilderState,
    start: StdRng,
    bundle: UnauthorizedBundle<V>,
    metadata: SaplingMetadata,
    end: StdRng,
    n: int,
    extsk: ExtendedSpendingKey,
    note: Note,
    merkle_path: MerklePath,
) -> (nk: NullifierDerivingKey)
    requires
        before.well_formed(),
        built::<N, SP, OP, V>(before, start, bundle, metadata, end),
        0 <= n < before.spends.len(),
        before.spends[n].note() == note,
        before.spends[n].merkle_path() == merkle_path,
        before.spends[n].proof_generation_key().ak@ == spend_verification_key(extsk.expsk.ask@),
        before.spends[n].proof_generation_key().nsk == extsk.expsk.nsk,
    ensures
        ({
            let info = before.spends[n];
            let index = metadata.spend_indices()[n] as int;
            let description = bundle.shielded_spends@[index];
            &&& 0 <= index < bundle.shielded_spends@.len()
            &&& description.cv@ == point_sum(
                point_multiple(VALUE_COMMITMENT_VALUE_GENERATOR@, note.value@ as int),
                point_multiple(VALUE_COMMITMENT_RANDOMNESS_GENERATOR@, info.rcv()@ as int),
            )
            &&& Some(description.anchor) == before.anchor
            &&& nk@ == point_multiple(
                PROOF_GENERATION_KEY_GENERATOR@,
                extsk.expsk.nsk@ as int,
            )
            &&& call_ensures(N::nf, (&note, &nk, merkle_path.position), description.nullifier)
            &&& description.rk@ == randomized_key(
                spend_verification_key(extsk.expsk.ask@),
                info.alpha()@,
            )
            &&& description.spend_auth_sig.ak()@ == spend_verification_key(extsk.expsk.ask@)
            &&& description.spend_auth_sig.alpha() == info.alpha()
            &&& call_ensures(
                SP::prepare_circuit,
                (
                    info.proof_generation_key(),
                    note.recipient.diversifier,
                    note.rseed,
                    note.value,
                    info.alpha(),
                    info.rcv(),
                    description.anchor,
                    merkle_path,
                ),
                Some(description.zkproof),
            )
        }),
{
    law_metadata_locates_spends::<N, SP, OP, V>(before, start, bundle, metadata, end);
    let info = before.spends[n];
    let description = bundle.shielded_spends@[metadata.spend_indices()[n] as int];
    assert(spend_built::<N, SP>(info, before.anchor->0, description));
    choose|nk: NullifierDerivingKey|
        nk@ == point_multiple(
            PROOF_GENERATION_KEY_GENERATOR@,
            info.proof_generation_key().nsk@ as int,
        ) && #[trigger] call_ensures(
            N::nf,
            (&info.note(), &nk, info.merkle_path().position),
            description.nullifier,
        )
}

/// The path that a circuit is prepared with leads from the commitment of the spent note to the
/// anchor of the description: the root that was computed when the spend was added is the
/// anchor, and path and note are the same.
pub proof fn law_circuit_path_leads_to_anchor<
    N: Protocol,
    SP: SpendProver,
    OP: OutputProver,
    V: TryFrom<i64>,
>(
    before: BuilderState,
    start: StdRng,
    bundle: UnauthorizedBundle<V>,
    metadata: SaplingMetadata,
    end: StdRng,
    n: int,
    root: bls12_381::Scalar,
) -> (leaf: (ExtractedNoteCommitment, MerklePath))
    requires
        before.well_formed(),
        built::<N, SP, OP, V>(before, start, bundle, metadata, end),
        0 <= n < before.spends.len(),
        root_computed::<N>(before.spends[n].note(), before.spends[n].merkle_path(), root),
        before.anchor == Some(root),
    ensures
        ({
            let (cmu, path) = leaf;
            let info = before.spends[n];
            let description = bundle.shielded_spends@[metadata.spend_indices()[n] as int];
            &&& call_ensures(N::cmu, (&info.note(),), cmu)
            &&& call_ensures(N::root, (&path, &cmu), description.anchor)
            &&& call_ensures(
                SP::prepare_circuit,
                (
                    info.proof_generation_key(),
                    info.note().recipient.diversifier,
                    info.note().rseed,
                    info.note().value,
                    info.alpha(),
                    info.rcv(),
                    description.anchor,
                    path,
                ),
                Some(description.zkproof),
            )
        }),
{
    law_metadata_locates_spends::<N, SP, OP, V>(before, start, bundle, metadata, end);
    let info = before.spends[n];
    let description = bundle.shielded_spends@[metadata.spend_indices()[n] as int];
    assert(spend_built::<N, SP>(info, before.anchor->0, description));
    let cmu = choose|cmu: ExtractedNoteCommitment|
        call_ensures(N::cmu, (&info.note(),), cmu) && #[trigger] call_ensures(
            N::root,
            (&info.merkle_path(), &cmu),
            root,
        );
    (cmu, info.merkle_path())
}

/// How many spends and outputs a bundle has: as many spends as were added, and as many outputs
/// as were added, but never fewer than two where there are spends. The value balance is that
/// of the builder, as the amount's own conversion has it.
pub proof fn law_bundle_has_what_was_added<
    N: Protocol,
    SP: SpendProver,
    OP: OutputProver,
    V: TryFrom<i64>,
>(
    before: BuilderState,
    start: StdRng,
    bundle: UnauthorizedBundle<V>,
    metadata: SaplingMetadata,
    end: StdRng,
)
    requires
        built::<N, SP, OP, V>(before, start, bundle, metadata, end),
    ensures
        bundle.shielded_spends@.len() == before.spends.len(),
        before.spends.len() == 0 || before.outputs.len() >= 2
            ==> bundle.shielded_outputs@.len() == before.outputs.len(),
        before.spends.len() > 0 && before.outputs.len() < 2 ==> bundle.shielded_outputs@.len() == 2,
        before.spends.len() == 0 ==> before.output_count() == before.outputs.len(),
        before.spends.len() > 0 && before.outputs.len() < 2 ==> before.output_count() == 2,
        before.outputs.len() >= 2 ==> before.output_count() == before.outputs.len(),
        metadata.spend_indices().len() == before.spends.len(),
        metadata.output_indices().len() == before.outputs.len(),
        -0x8000_0000_0000_0000 <= before.value_balance <= 0x7fff_ffff_ffff_ffff,
        call_ensures(
            V::try_from,
            (before.value_balance as i64,),
            Ok::<V, <V as TryFrom<i64>>::Error>(bundle.value_balance),
        ),
{
    law_metadata_locates_outputs::<N, SP, OP, V>(before, start, bundle, metadata, end);
    law_metadata_locates_spends::<N, SP, OP, V>(before, start, bundle, metadata, end);
}

/// An output of the bundle that was not added pays nothing to anyone: it is made of a note
/// without value, to an address that the protocol derived, without memo and without outgoing
/// viewing key, and its description is made of these. Returned is what it is made of.
pub proof fn law_padding_is_worthless<
    N: Protocol,
    SP: SpendProver,
    OP: OutputProver,
    V: TryFrom<i64>,
>(
    before: BuilderState,
    start: StdRng,
    bundle: UnauthorizedBundle<V>,
    metadata: SaplingMetadata,
    end: StdRng,
    index: int,
) -> (parts: (SaplingOutputInfo, [u8; 512], N::NoteEncryption, Fr, Fr))
    requires
        built::<N, SP, OP, V>(before, start, bundle, metadata, end),
        0 <= index < bundle.shielded_outputs@.len(),
        forall|n: int|
            0 <= n < before.outputs.len() ==> #[trigger] metadata.output_indices()[n] != index,
    ensures
        parts.0.note().value@ == 0,
        parts.0.ovk() is None,
        parts.0.memo() is None,
        (parts.0.note().rseed is BeforeZip212) == (before.zip212_enforcement
            == Zip212Enforcement::Off),
        exists|ivk: SaplingIvk, diversifier: Diversifier| #[trigger]
            call_ensures(
                N::to_payment_address,
                (&ivk, diversifier),
                Some(parts.0.note().recipient),
            ),
        parts.1@[0] == 0xf6u8,
        forall|i: int| 1 <= i < 512 ==> #[trigger] parts.1@[i] == 0u8,
        exists|used: &mut StdRng| #[trigger]
            call_ensures(
                N::note_encryption,
                (None::<OutgoingViewingKey>, parts.0.note(), parts.1, used),
                parts.2,
            ),
        exists|used: &mut StdRng| #[trigger]
            call_ensures(
                N::encrypt_outgoing_plaintext,
                (
                    &parts.2,
                    &bundle.shielded_outputs@[index].cv,
                    &bundle.shielded_outputs@[index].cmu,
                    used,
                ),
                bundle.shielded_outputs@[index].out_ciphertext,
            ),
        ({
            let (dummy, memo, encryption, esk, rcm) = parts;
            let description = bundle.shielded_outputs@[index];
            &&& description.cv@ == point_sum(
                point_multiple(VALUE_COMMITMENT_VALUE_GENERATOR@, 0),
                point_multiple(VALUE_COMMITMENT_RANDOMNESS_GENERATOR@, dummy.rcv()@ as int),
            )
            &&& call_ensures(N::cmu, (&dummy.note(),), description.cmu)
            &&& call_ensures(N::epk, (&encryption,), description.ephemeral_key)
            &&& call_ensures(N::encrypt_note_plaintext, (&encryption,), description.enc_ciphertext)
            &&& call_ensures(N::esk, (&encryption,), esk)
            &&& call_ensures(N::rcm, (&dummy.note(),), rcm)
            &&& call_ensures(
                OP::prepare_circuit,
                (esk, dummy.note().recipient, rcm, dummy.note().value, dummy.rcv()),
                description.zkproof,
            )
            &&& describes_output::<N, OP>(dummy, description)
        }),
{
    let (spends, outputs, between) = choose|
        spends: Seq<SpendDescriptionInfo>,
        outputs: Seq<SaplingOutputInfo>,
        between: StdRng,
    |
        {
            &&& #[trigger] built_in_order::<N, SP, OP, V>(
                before,
                spends,
                outputs,
                bundle,
                metadata,
            )
            &&& #[trigger] arranged::<N>(before, start, spends, outputs, metadata, between)
            &&& outputs_described::<N, OP>(between, outputs, bundle.shielded_outputs@, end)
        };
    let indices = metadata.output_indices();
    let dummy = outputs[index];
    assert(bundle.shielded_outputs.len() == bundle.shielded_outputs@.len());
    assert(!indices.contains(index as usize)) by {
        if indices.contains(index as usize) {
            let n = choose|n: int| 0 <= n < indices.len() && indices[n] == index as usize;
            assert(indices[n] != index);
        }
    }
    assert(is_dummy::<N>(dummy, before.zip212_enforcement));
    let description = bundle.shielded_outputs@[index];
    let (from, to) = choose|from: StdRng, to: StdRng| #[trigger]
        output_built::<N, OP>(from, dummy, description, to);
    let (memo, encryption, esk, rcm, middle) = law_output_is_described::<N, OP>(
        from,
        dummy,
        description,
        to,
    );
    let parts = (dummy, memo, encryption, esk, rcm);
    let first = choose|used: &mut StdRng|
        *used == from && *final(used) == middle && #[trigger] call_ensures(
            N::note_encryption,
            (dummy.ovk(), dummy.note(), memo, used),
            encryption,
        );
    assert(dummy.ovk() == None::<OutgoingViewingKey>);
    assert(call_ensures(
        N::note_encryption,
        (None::<OutgoingViewingKey>, parts.0.note(), parts.1, first),
        parts.2,
    ));
    let second = choose|used: &mut StdRng|
        *used == middle && *final(used) == to && #[trigger] call_ensures(
            N::encrypt_outgoing_plaintext,
            (&encryption, &description.cv, &description.cmu, used),
            description.out_ciphertext,
        );
    assert(call_ensures(
        N::encrypt_outgoing_plaintext,
        (
            &parts.2,
            &bundle.shielded_outputs@[index].cv,
            &bundle.shielded_outputs@[index].cmu,
            second,
        ),
        bundle.shielded_outputs@[index].out_ciphertext,
    ));
    parts
}

/// What the spends and outputs of a bundle were arranged with.
pub struct Arrangement {
    pub listed_spends: Vec<(usize, SpendDescriptionInfo)>,
    pub shuffled_spends: Vec<(usize, SpendDescriptionInfo)>,
    pub listed_outputs: Vec<Option<(usize, SaplingOutputInfo)>>,
    pub shuffled_outputs: Vec<Option<(usize, SaplingOutputInfo)>>,
    /// The generator between the two shuffles, and after them.
    pub between: StdRng,
    pub shuffled: StdRng,
    /// The generator before each place is filled and after the last.
    pub filling: Seq<StdRng>,
}

/// How the generator arranges spends and outputs. With it the spends are shuffled, all of them
/// at once, and then the outputs with as many empty places as there are dummies to come; then
/// every empty place is filled with a dummy, in order. That is all it is used for. The metadata
/// records for each spend and output the place that the shuffle gave it.
pub proof fn law_arranging_is_shuffling<N: Protocol>(
    before: BuilderState,
    start: StdRng,
    spends: Seq<SpendDescriptionInfo>,
    outputs: Seq<SaplingOutputInfo>,
    metadata: SaplingMetadata,
    after: StdRng,
) -> (a: Arrangement)
    requires
        arranged::<N>(before, start, spends, outputs, metadata, after),
    ensures
        a.listed_spends@.len() == before.spends.len(),
        forall|i: int|
            0 <= i < before.spends.len() ==> (#[trigger] a.listed_spends@[i]).0 == i as usize
                && a.listed_spends@[i].1 == before.spends[i],
        shuffle_drawn(start, a.listed_spends, a.shuffled_spends, a.between),
        a.shuffled_spends@.len() == before.spends.len(),
        spends.len() == before.spends.len(),
        forall|i: int|
            0 <= i < before.spends.len() ==> spends[i] == (#[trigger] a.shuffled_spends@[i]).1
                && metadata.spend_indices()[a.shuffled_spends@[i].0 as int] == i,
        before.spends.len() == 0 || before.outputs.len() >= 2 ==> a.listed_outputs@.len()
            == before.outputs.len(),
        before.spends.len() > 0 && before.outputs.len() < 2 ==> a.listed_outputs@.len() == 2,
        forall|i: int|
            0 <= i < before.outputs.len() ==> #[trigger] a.listed_outputs@[i] == Some(
                (i as usize, before.outputs[i]),
            ),
        forall|i: int|
            before.outputs.len() <= i < a.listed_outputs@.len() ==> (
            #[trigger] a.listed_outputs@[i]) is None,
        shuffle_drawn(a.between, a.listed_outputs, a.shuffled_outputs, a.shuffled),
        a.shuffled_outputs@.len() == a.listed_outputs@.len(),
        outputs.len() == a.listed_outputs@.len(),
        a.filling.len() == outputs.len() + 1,
        a.filling[0] == a.shuffled,
        a.filling[outputs.len() as int] == after,
        forall|i: int|
            0 <= i < outputs.len() ==> match #[trigger] a.shuffled_outputs@[i] {
                Some((pos, output)) => {
                    &&& metadata.output_indices()[pos as int] == i
                    &&& outputs[i] == output
                    &&& a.filling[i + 1] == a.filling[i]
                },
                None => dummy_drawn::<N>(
                    a.filling[i],
                    before.zip212_enforcement,
                    outputs[i],
                    a.filling[i + 1],
                ),
            },
{
    let (listed_spends, shuffled_spends, listed_outputs, shuffled_outputs, between, shuffled) =
        choose|
        listed_spends: Vec<(usize, SpendDescriptionInfo)>,
        shuffled_spends: Vec<(usize, SpendDescriptionInfo)>,
        listed_outputs: Vec<Option<(usize, SaplingOutputInfo)>>,
        shuffled_outputs: Vec<Option<(usize, SaplingOutputInfo)>>,
        between: StdRng,
        shuffled: StdRng,
    |
        {
            &&& listed_spends@ == with_positions(before.spends)
            &&& #[trigger] shuffle_drawn(start, listed_spends, shuffled_spends, between)
            &&& taken_apart(shuffled_spends@, metadata.spend_indices(), spends)
            &&& listed_outputs@ == padded_to(before.outputs, before.output_count())
            &&& #[trigger] shuffle_drawn(between, listed_outputs, shuffled_outputs, shuffled)
            &&& #[trigger] filled_up::<N>(
                shuffled,
                before.zip212_enforcement,
                shuffled_outputs@,
                metadata.output_indices(),
                outputs,
                after,
            )
        };
    let filling = choose|states: Seq<StdRng>| #[trigger]
        filled_up_through::<N>(
            shuffled,
            states,
            before.zip212_enforcement,
            shuffled_outputs@,
            metadata.output_indices(),
            outputs,
            after,
        );
    law_order_is_drawn(start, listed_spends, shuffled_spends, between);
    law_order_is_drawn(between, listed_outputs, shuffled_outputs, shuffled);
    Arrangement {
        listed_spends,
        shuffled_spends,
        listed_outputs,
        shuffled_outputs,
        between,
        shuffled,
        filling,
    }
}

/// How a bundle uses the generator: the spends and outputs are arranged with it, and then every
/// output is described with it, in order. That is all it is used for. Every spend stands in the
/// bundle where it was arranged, and so does every output. Returned are the arranged spends and
/// outputs, the generator after that, and the generator before each output is described and
/// after the last.
pub proof fn law_bundle_is_arranged<
    N: Protocol,
    SP: SpendProver,
    OP: OutputProver,
    V: TryFrom<i64>,
>(
    before: BuilderState,
    start: StdRng,
    bundle: UnauthorizedBundle<V>,
    metadata: SaplingMetadata,
    end: StdRng,
) -> (a: (Seq<SpendDescriptionInfo>, Seq<SaplingOutputInfo>, StdRng, Seq<StdRng>))
    requires
        built::<N, SP, OP, V>(before, start, bundle, metadata, end),
    ensures
        arranged::<N>(before, start, a.0, a.1, metadata, a.2),
        bundle.shielded_spends@.len() == a.0.len(),
        forall|i: int|
            0 <= i < a.0.len() ==> spend_built::<N, SP>(
                #[trigger] a.0[i],
                before.anchor->0,
                bundle.shielded_spends@[i],
            ),
        bundle.shielded_outputs@.len() == a.1.len(),
        a.3.len() == a.1.len() + 1,
        a.3[0] == a.2,
        forall|i: int|
            0 <= i < a.1.len() ==> output_built::<N, OP>(
                a.3[i],
                #[trigger] a.1[i],
                bundle.shielded_outputs@[i],
                a.3[i + 1],
            ),
        a.3[a.1.len() as int] == end,
{
    let (spends, outputs, filled) = choose|
        spends: Seq<SpendDescriptionInfo>,
        outputs: Seq<SaplingOutputInfo>,
        filled: StdRng,
    |
        {
            &&& #[trigger] built_in_order::<N, SP, OP, V>(
                before,
                spends,
                outputs,
                bundle,
                metadata,
            )
            &&& #[trigger] arranged::<N>(before, start, spends, outputs, metadata, filled)
            &&& outputs_described::<N, OP>(filled, outputs, bundle.shielded_outputs@, end)
        };
    let describing = choose|states: Seq<StdRng>| #[trigger]
        described_through::<N, OP>(filled, states, outputs, bundle.shielded_outputs@, end);
    assert forall|i: int| 0 <= i < spends.len() implies spend_built::<N, SP>(
        #[trigger] spends[i],
        before.anchor->0,
        bundle.shielded_spends@[i],
    ) by {
        assert(bundle.shielded_spends@[i] == bundle.shielded_spends@[i]);
    }
    assert forall|i: int| 0 <= i < outputs.len() implies output_built::<N, OP>(
        describing[i],
        #[trigger] outputs[i],
        bundle.shielded_outputs@[i],
        describing[i + 1],
    ) by {
        assert(bundle.shielded_outputs@[i] == bundle.shielded_outputs@[i]);
    }
    (spends, outputs, filled, describing)
}

/// When building fails, and when it gives nothing. It gives nothing exactly where nothing was
/// added. It fails for the amount only where the balance cannot be had as one, and then has
/// drawn nothing; for a proof only where the prover prepares no circuit for one of the notes
/// that were added, with its very path; and for an address only where a dummy is needed and
/// `u64::MAX` draws gave none. It fails for no other reason.
pub proof fn law_when_building_fails<
    N: Protocol,
    SP: SpendProver,
    OP: OutputProver,
    V: TryFrom<i64>,
>(
    before: BuilderState,
    start: StdRng,
    answer: Result<Option<(UnauthorizedBundle<V>, SaplingMetadata)>, Error>,
    end: StdRng,
)
    requires
        before.well_formed(),
        build_answered::<N, SP, OP, V>(before, start, answer, end),
    ensures
        answer matches Ok(built) ==> (built is None <==> before.spends.len() == 0
            && before.outputs.len() == 0),
        answer matches Err(error) ==> error == Error::InvalidAmount || error == Error::SpendProof
            || error == Error::InvalidAddress,
        answer matches Err(Error::InvalidAmount) ==> end == start && exists|
            refused: <V as TryFrom<i64>>::Error,
        | #[trigger]
            call_ensures(
                V::try_from,
                (before.value_balance as i64,),
                Err::<V, <V as TryFrom<i64>>::Error>(refused),
            ),
        !(answer matches Err(Error::InvalidAmount)) ==> exists|taken: V| #[trigger]
            call_ensures(
                V::try_from,
                (before.value_balance as i64,),
                Ok::<V, <V as TryFrom<i64>>::Error>(taken),
            ),
        answer matches Err(Error::SpendProof) ==> exists|n: int|
            0 <= n < before.spends.len() && call_ensures(
                SP::prepare_circuit,
                (
                    (#[trigger] before.spends[n]).proof_generation_key(),
                    before.spends[n].note().recipient.diversifier,
                    before.spends[n].note().rseed,
                    before.spends[n].note().value,
                    before.spends[n].alpha(),
                    before.spends[n].rcv(),
                    before.anchor->0,
                    before.spends[n].merkle_path(),
                ),
                None,
            ),
        answer matches Err(Error::InvalidAddress) ==> before.spends.len() > 0
            && before.outputs.len() < 2 && exists|from: StdRng| #[trigger]
            address_drawn::<N>(from, None, end),
        (answer matches Ok(None)) || (answer matches Err(Error::SpendProof)) ==> exists|
            spends: Seq<SpendDescriptionInfo>,
            outputs: Seq<SaplingOutputInfo>,
            metadata: SaplingMetadata,
        | #[trigger]
            arranged::<N>(before, start, spends, outputs, metadata, end),
{
    if answer matches Err(Error::SpendProof) {
        let n = choose|n: int|
            0 <= n < before.spends.len() && circuit_prepared::<SP>(
                #[trigger] before.spends[n],
                before.anchor->0,
                None,
            );
        assert(before.spends[n] == before.spends[n]);
    }
    match answer {
        Ok(Some((bundle, _))) => {
            assert(balance_converted(
                before.value_balance,
                Ok::<V, Error>(bundle.value_balance),
            ));
        },
        Err(Error::InvalidAmount) => {},
        _ => {
            let v = choose|v: V| #[trigger]
                balance_converted(before.value_balance, Ok::<V, Error>(v));
            assert(call_ensures(
                V::try_from,
                (before.value_balance as i64,),
                Ok::<V, <V as TryFrom<i64>>::Error>(v),
            ));
        },
    }
}

/// The key for given commitments and a value balance is the sum of the spends' commitments,
/// less that of the outputs', less the balance.
pub proof fn law_bvk_is_that_of_commitments<A: Authorization, Proof>(
    spends: Seq<SpendDescription<A>>,
    outputs: Seq<OutputDescription<Proof>>,
    value_balance: int,
)
    ensures
        spend_commitments(spends) == Seq::new(spends.len(), |i: int| spends[i].cv),
        output_commitments(outputs) == Seq::new(outputs.len(), |i: int| outputs[i].cv),
        bvk_of(spend_commitments(spends), output_commitments(outputs), value_balance)
            == without_balance(
            point_difference(
                commitment_total(Seq::new(spends.len(), |i: int| spends[i].cv)),
                commitment_total(Seq::new(outputs.len(), |i: int| outputs[i].cv)),
            ),
            value_balance,
        ),
{
    assert(spend_commitments(spends) =~= Seq::new(spends.len(), |i: int| spends[i].cv));
    assert(output_commitments(outputs) =~= Seq::new(outputs.len(), |i: int| outputs[i].cv));
}

/// The key that checks the binding signature is computed from the commitments alone and the
/// value balance: the sum of the spends' commitments, less that of the outputs', less the
/// balance. The binding signing key of the bundle is the one that belongs to it.
pub proof fn law_binding_key_is_that_of_commitments<
    N: Protocol,
    SP: SpendProver,
    OP: OutputProver,
    V: TryFrom<i64>,
>(
    before: BuilderState,
    start: StdRng,
    bundle: UnauthorizedBundle<V>,
    metadata: SaplingMetadata,
    end: StdRng,
)
    requires
        built::<N, SP, OP, V>(before, start, bundle, metadata, end),
    ensures
        ({
            let spent = commitment_total(
                Seq::new(
                    bundle.shielded_spends@.len(),
                    |i: int| bundle.shielded_spends@[i].cv,
                ),
            );
            let sent = commitment_total(
                Seq::new(
                    bundle.shielded_outputs@.len(),
                    |i: int| bundle.shielded_outputs@[i].cv,
                ),
            );
            binding_verification_key(bundle.authorization.sigs().bsk()@) == without_balance(
                point_difference(spent, sent),
                before.value_balance,
            )
        }),
{
    assert(spend_commitments(bundle.shielded_spends@) =~= Seq::new(
        bundle.shielded_spends@.len(),
        |i: int| bundle.shielded_spends@[i].cv,
    ));
    assert(output_commitments(bundle.shielded_outputs@) =~= Seq::new(
        bundle.shielded_outputs@.len(),
        |i: int| bundle.shielded_outputs@[i].cv,
    ));
}

} // verus!
