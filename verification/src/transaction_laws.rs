//! What holds of a bundle from end to end: said of what was added to the builder and of what
//! stands in the authorized bundle.

use crate::assembly::{built, UnauthorizedBundle};
use crate::builder::{BuilderState, SaplingMetadata};
use crate::building_laws::{law_added_output_is_in_bundle, law_added_spend_is_in_bundle};
use crate::bundle::{Authorized, Bundle};
use crate::in_progress::{InProgress, Proven, Unsigned};
use crate::keys::{ExtendedSpendingKey, NullifierDerivingKey};
use crate::note::{MerklePath, Note, Protocol};
use crate::point::{
    point_multiple, point_sum, PROOF_GENERATION_KEY_GENERATOR,
    VALUE_COMMITMENT_RANDOMNESS_GENERATOR, VALUE_COMMITMENT_VALUE_GENERATOR,
};
use crate::prover::{OutputProver, SpendProver};
use crate::proving::now_proven;
use crate::proving_laws::law_proofs_keep_everything_else;
use crate::signature::{randomized_key, spend_signature_accepted, spend_verification_key};
use crate::signing::signatures_applied;
use crate::signing_laws::law_applying_signs_everything;
use rand::rngs::StdRng;
use vstd::prelude::*;

verus! {

/// Of the n-th output that was added, the authorized bundle holds, where the metadata says, a
/// commitment to its value, the commitment that the protocol makes of its note, and the
/// ephemeral key and ciphertexts of one encryption: that of the note, with the memo and the key
/// it was added with. Returned are the memo that is sent and the encryption.
pub proof fn law_output_reaches_transaction<
    N: Protocol,
    SP: SpendProver,
    OP: OutputProver,
    V: TryFrom<i64>,
>(
    before: BuilderState,
    start: StdRng,
    unproven: UnauthorizedBundle<V>,
    metadata: SaplingMetadata,
    end: StdRng,
    spend_prover: SP,
    output_prover: OP,
    proofs_start: StdRng,
    proven: Bundle<InProgress<Proven, Unsigned>, V>,
    proofs_end: StdRng,
    sighash: Seq<u8>,
    authorized: Bundle<Authorized, V>,
    n: int,
) -> (sent: ([u8; 512], N::NoteEncryption))
    requires
        built::<N, SP, OP, V>(before, start, unproven, metadata, end),
        now_proven(spend_prover, output_prover, proofs_start, unproven, proven, proofs_end),
        signatures_applied(proven, sighash, authorized),
        0 <= n < before.outputs.len(),
    ensures
        0 <= metadata.output_indices()[n] < authorized.shielded_outputs@.len(),
        before.outputs[n].memo() matches Some(given) ==> sent.0@ == given@,
        before.outputs[n].memo() is None ==> sent.0@[0] == 0xf6u8 && forall|i: int|
            1 <= i < 512 ==> #[trigger] sent.0@[i] == 0u8,
        exists|used: &mut StdRng| #[trigger]
            call_ensures(
                N::note_encryption,
                (before.outputs[n].ovk(), before.outputs[n].note(), sent.0, used),
                sent.1,
            ),
        ({
            let output = authorized.shielded_outputs@[metadata.output_indices()[n] as int];
            exists|used: &mut StdRng| #[trigger]
                call_ensures(
                    N::encrypt_outgoing_plaintext,
                    (&sent.1, &output.cv, &output.cmu, used),
                    output.out_ciphertext,
                )
        }),
        ({
            let info = before.outputs[n];
            let output = authorized.shielded_outputs@[metadata.output_indices()[n] as int];
            &&& output.cv@ == point_sum(
                point_multiple(VALUE_COMMITMENT_VALUE_GENERATOR@, info.note().value@ as int),
                point_multiple(VALUE_COMMITMENT_RANDOMNESS_GENERATOR@, info.rcv()@ as int),
            )
            &&& call_ensures(N::cmu, (&info.note(),), output.cmu)
            &&& call_ensures(N::epk, (&sent.1,), output.ephemeral_key)
            &&& call_ensures(N::encrypt_note_plaintext, (&sent.1,), output.enc_ciphertext)
        }),
{
    let parts = law_added_output_is_in_bundle::<N, SP, OP, V>(
        before,
        start,
        unproven,
        metadata,
        end,
        n,
    );
    law_proofs_keep_everything_else(
        spend_prover,
        output_prover,
        proofs_start,
        unproven,
        proven,
        proofs_end,
    );
    let index = metadata.output_indices()[n] as int;
    let described = unproven.shielded_outputs@[index];
    let output = authorized.shielded_outputs@[index];
    assert(output == proven.shielded_outputs@[index]);
    let sent = (parts.0, parts.1);
    let first = choose|used: &mut StdRng| #[trigger]
        call_ensures(
            N::note_encryption,
            (before.outputs[n].ovk(), before.outputs[n].note(), parts.0, used),
            parts.1,
        );
    assert(call_ensures(
        N::note_encryption,
        (before.outputs[n].ovk(), before.outputs[n].note(), sent.0, first),
        sent.1,
    ));
    let second = choose|used: &mut StdRng| #[trigger]
        call_ensures(
            N::encrypt_outgoing_plaintext,
            (&parts.1, &described.cv, &described.cmu, used),
            described.out_ciphertext,
        );
    assert(call_ensures(
        N::encrypt_outgoing_plaintext,
        (&sent.1, &output.cv, &output.cmu, second),
        output.out_ciphertext,
    ));
    sent
}

/// Of the n-th spend that was added, the authorized bundle holds, where the metadata says, a
/// commitment to the value of its note, the anchor of the builder, the nullifier of the note at
/// the position of its path, the randomized key of the spending key it was added with, and a
/// signature over the sighash that this key accepts. Returned is the nullifier deriving key.
pub proof fn law_spend_reaches_transaction<
    N: Protocol,
    SP: SpendProver,
    OP: OutputProver,
    V: TryFrom<i64>,
>(
    before: BuilderState,
    start: StdRng,
    unproven: UnauthorizedBundle<V>,
    metadata: SaplingMetadata,
    end: StdRng,
    spend_prover: SP,
    output_prover: OP,
    proofs_start: StdRng,
    proven: Bundle<InProgress<Proven, Unsigned>, V>,
    proofs_end: StdRng,
    sighash: Seq<u8>,
    authorized: Bundle<Authorized, V>,
    n: int,
    extsk: ExtendedSpendingKey,
    note: Note,
    merkle_path: MerklePath,
) -> (nk: NullifierDerivingKey)
    requires
        before.well_formed(),
        built::<N, SP, OP, V>(before, start, unproven, metadata, end),
        now_proven(spend_prover, output_prover, proofs_start, unproven, proven, proofs_end),
        signatures_applied(proven, sighash, authorized),
        0 <= n < before.spends.len(),
        before.spends[n].note() == note,
        before.spends[n].merkle_path() == merkle_path,
        before.spends[n].proof_generation_key().ak@ == spend_verification_key(extsk.expsk.ask@),
        before.spends[n].proof_generation_key().nsk == extsk.expsk.nsk,
    ensures
        0 <= metadata.spend_indices()[n] < authorized.shielded_spends@.len(),
        nk@ == point_multiple(PROOF_GENERATION_KEY_GENERATOR@, extsk.expsk.nsk@ as int),
        ({
            let info = before.spends[n];
            let spend = authorized.shielded_spends@[metadata.spend_indices()[n] as int];
            &&& spend.cv@ == point_sum(
                point_multiple(VALUE_COMMITMENT_VALUE_GENERATOR@, note.value@ as int),
                point_multiple(VALUE_COMMITMENT_RANDOMNESS_GENERATOR@, info.rcv()@ as int),
            )
            &&& Some(spend.anchor) == before.anchor
            &&& call_ensures(N::nf, (&note, &nk, merkle_path.position), spend.nullifier)
            &&& spend.rk@ == randomized_key(
                spend_verification_key(extsk.expsk.ask@),
                info.alpha()@,
            )
            &&& spend_signature_accepted(spend.rk@, sighash, spend.spend_auth_sig@)
        }),
{
    let nk = law_added_spend_is_in_bundle::<N, SP, OP, V>(
        before,
        start,
        unproven,
        metadata,
        end,
        n,
        extsk,
        note,
        merkle_path,
    );
    law_proofs_keep_everything_else(
        spend_prover,
        output_prover,
        proofs_start,
        unproven,
        proven,
        proofs_end,
    );
    let index = metadata.spend_indices()[n] as int;
    law_applying_signs_everything(
        proven,
        sighash,
        Seq::empty(),
        authorized,
        proven.shielded_spends@[index].spend_auth_sig,
    );
    assert(authorized.shielded_spends@[index].cv == proven.shielded_spends@[index].cv);
    nk
}

} // verus!
