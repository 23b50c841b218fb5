//! Spends that have been added to a builder.

use crate::bundle::SpendDescription;
use crate::error::Error;
use crate::in_progress::{InProgress, SigningParts, Unproven, Unsigned};
use crate::keys::{ExtendedSpendingKey, NullifierDerivingKey, ProofGenerationKey};
use crate::note::{MerklePath, Note, Nullifier, Protocol};
use crate::point::{
    combination, point_multiple, point_sum, PROOF_GENERATION_KEY_GENERATOR,
    VALUE_COMMITMENT_RANDOMNESS_GENERATOR, VALUE_COMMITMENT_VALUE_GENERATOR,
};
use crate::prover::{Spend, SpendProver};
use crate::scalar::{scalar_drawn, Fr};
use crate::signature::{randomized_key, spend_verification_key};
use crate::value::{trapdoor_drawn, NoteValue, ValueCommitTrapdoor, ValueCommitment};
use rand::rngs::StdRng;
use vstd::prelude::*;

verus! {

/// A note that is to be spent, with all that its description is made from.
#[derive(Clone, Debug)]
pub struct SpendDescriptionInfo {
    pub(crate) proof_generation_key: ProofGenerationKey,
    pub(crate) note: Note,
    pub(crate) alpha: Fr,
    pub(crate) merkle_path: MerklePath,
    pub(crate) rcv: ValueCommitTrapdoor,
}

impl SpendDescriptionInfo {
    /// The key that the spend is proven with.
    pub open(crate) spec fn proof_generation_key(&self) -> ProofGenerationKey {
        self.proof_generation_key
    }

    /// The note that is spent.
    pub open(crate) spec fn note(&self) -> Note {
        self.note
    }

    /// The randomizer of the spend's verification key.
    pub open(crate) spec fn alpha(&self) -> Fr {
        self.alpha
    }

    /// Where the note stands in the commitment tree.
    pub open(crate) spec fn merkle_path(&self) -> MerklePath {
        self.merkle_path
    }

    /// The randomness of the spend's value commitment.
    pub open(crate) spec fn rcv(&self) -> ValueCommitTrapdoor {
        self.rcv
    }

    /// Draws the randomness of a spend.
    pub(crate) fn new_internal(
        rng: &mut StdRng,
        extsk: &ExtendedSpendingKey,
        note: Note,
        merkle_path: MerklePath,
    ) -> (info: Self)
        ensures
            spend_drawn(*old(rng), *extsk, note, merkle_path, info, *final(rng)),
    {
        let alpha = Fr::random(rng);
        let ghost between = *rng;
        let info = SpendDescriptionInfo {
            proof_generation_key: extsk.expsk.proof_generation_key(),
            note,
            alpha,
            merkle_path,
            rcv: ValueCommitTrapdoor::random(rng),
        };
        assert(scalar_drawn(*old(rng), info.alpha(), between));
        info
    }

    /// The value of the note that is spent.
    pub fn value(&self) -> (value: NoteValue)
        ensures
            value == self.note().value,
    {
        self.note.value
    }

    /// Describes this spend, given its nullifier and what preparing its circuit
    /// gave.
    pub fn describe(
        &self,
        anchor: bls12_381::Scalar,
        nullifier: Nullifier,
        circuit: Option<Spend>,
    ) -> (description: Result<SpendDescription<InProgress<Unproven, Unsigned>>, Error>)
        ensures
            match circuit {
                None => description == Err::<
                    SpendDescription<InProgress<Unproven, Unsigned>>,
                    Error,
                >(Error::SpendProof),
                Some(circuit) => description is Ok && {
                    &&& describes_spend(*self, anchor, description->Ok_0)
                    &&& description->Ok_0.nullifier == nullifier
                    &&& description->Ok_0.zkproof == circuit
                    &&& description->Ok_0.cv@ == point_sum(
                        point_multiple(
                            VALUE_COMMITMENT_VALUE_GENERATOR@,
                            self.note().value@ as int,
                        ),
                        point_multiple(
                            VALUE_COMMITMENT_RANDOMNESS_GENERATOR@,
                            self.rcv()@ as int,
                        ),
                    )
                    &&& description->Ok_0.anchor == anchor
                    &&& description->Ok_0.rk@ == randomized_key(
                        self.proof_generation_key().ak@,
                        self.alpha()@,
                    )
                    &&& description->Ok_0.spend_auth_sig.ak() == self.proof_generation_key().ak
                    &&& description->Ok_0.spend_auth_sig.alpha() == self.alpha()
                },
            },
    {
        Self::describe_parts(
            self.proof_generation_key,
            self.note,
            self.alpha,
            self.rcv,
            anchor,
            nullifier,
            circuit,
        )
    }

    /// Describes the spend that has these parts.
    fn describe_parts(
        proof_generation_key: ProofGenerationKey,
        note: Note,
        alpha: Fr,
        rcv: ValueCommitTrapdoor,
        anchor: bls12_381::Scalar,
        nullifier: Nullifier,
        circuit: Option<Spend>,
    ) -> (description: Result<SpendDescription<InProgress<Unproven, Unsigned>>, Error>)
        ensures
            match circuit {
                None => description == Err::<
                    SpendDescription<InProgress<Unproven, Unsigned>>,
                    Error,
                >(Error::SpendProof),
                Some(circuit) => description is Ok && {
                    &&& describes_parts(
                        proof_generation_key,
                        note,
                        alpha,
                        rcv,
                        anchor,
                        description->Ok_0,
                    )
                    &&& description->Ok_0.nullifier == nullifier
                    &&& description->Ok_0.zkproof == circuit
                },
            },
    {
        // Construct the value commitment.
        let cv = ValueCommitment::derive(note.value, &rcv);
        let ak = proof_generation_key.ak;
        // This is the result of the re-randomization, we compute it for the caller
        let rk = ak.randomize(&alpha);
        match circuit {
            None => Err(Error::SpendProof),
            Some(zkproof) => Ok(
                SpendDescription {
                    cv,
                    anchor,
                    nullifier,
                    rk,
                    zkproof,
                    spend_auth_sig: SigningParts { ak, alpha },
                },
            ),
        }
    }

    /// Derives the nullifier, prepares the circuit, and describes this spend.
    pub(crate) fn build<N: Protocol, SP: SpendProver>(
        self,
        anchor: Option<bls12_381::Scalar>,
    ) -> (description: Result<SpendDescription<InProgress<Unproven, Unsigned>>, Error>)
        requires
            anchor is Some,
        ensures
            match description {
                Ok(d) => spend_built::<N, SP>(self, anchor->0, d),
                Err(e) => e == Error::SpendProof && circuit_prepared::<SP>(self, anchor->0, None),
            },
            call_ensures(
                SP::prepare_circuit,
                (
                    self.proof_generation_key(),
                    self.note().recipient.diversifier,
                    self.note().rseed,
                    self.note().value,
                    self.alpha(),
                    self.rcv(),
                    anchor->0,
                    self.merkle_path(),
                ),
                match description {
                    Ok(d) => Some(d.zkproof),
                    Err(_) => None,
                },
            ),
    {
        let anchor = anchor.expect("Sapling anchor must be set if Sapling spends are present.");
        let nk = self.proof_generation_key.to_viewing_key().nk;
        let nullifier = N::nf(&self.note, &nk, self.merkle_path.position);
        let SpendDescriptionInfo { proof_generation_key, note, alpha, merkle_path, rcv } = self;
        let circuit = SP::prepare_circuit(
            proof_generation_key,
            note.recipient.diversifier,
            note.rseed,
            note.value,
            alpha,
            rcv,
            anchor,
            merkle_path,
        );
        Self::describe_parts(proof_generation_key, note, alpha, rcv, anchor, nullifier, circuit)
    }
}

/// The spend is of this note at this place, with this key.
pub open spec fn spends_with(
    info: SpendDescriptionInfo,
    extsk: ExtendedSpendingKey,
    note: Note,
    merkle_path: MerklePath,
) -> bool {
    &&& info.proof_generation_key().ak@ == spend_verification_key(extsk.expsk.ask@)
    &&& info.proof_generation_key().nsk == extsk.expsk.nsk
    &&& info.note() == note
    &&& info.merkle_path() == merkle_path
}

/// A generator in the state `before` gives the randomizer of the spend and then the
/// randomness of its commitment, and is in the state `after` then.
pub open spec fn spend_drawn(
    before: StdRng,
    extsk: ExtendedSpendingKey,
    note: Note,
    merkle_path: MerklePath,
    info: SpendDescriptionInfo,
    after: StdRng,
) -> bool {
    &&& spends_with(info, extsk, note, merkle_path)
    &&& exists|between: StdRng| #[trigger]
        scalar_drawn(before, info.alpha(), between) && trapdoor_drawn(between, info.rcv(), after)
}

/// What a description says of the spend that has these parts, the nullifier and the
/// circuit aside.
pub open spec fn describes_parts(
    proof_generation_key: ProofGenerationKey,
    note: Note,
    alpha: Fr,
    rcv: ValueCommitTrapdoor,
    anchor: bls12_381::Scalar,
    description: SpendDescription<InProgress<Unproven, Unsigned>>,
) -> bool {
    &&& description.cv@ == combination(note.value@ as int, rcv@ as int)
    &&& description.anchor == anchor
    &&& description.rk@ == randomized_key(proof_generation_key.ak@, alpha@)
    &&& description.spend_auth_sig.ak() == proof_generation_key.ak
    &&& description.spend_auth_sig.alpha() == alpha
}

/// What a description says of the spend it was made from, the nullifier and the
/// circuit aside.
pub open spec fn describes_spend(
    info: SpendDescriptionInfo,
    anchor: bls12_381::Scalar,
    description: SpendDescription<InProgress<Unproven, Unsigned>>,
) -> bool {
    describes_parts(
        info.proof_generation_key(),
        info.note(),
        info.alpha(),
        info.rcv(),
        anchor,
        description,
    )
}

/// `circuit` is what the prover makes of this spend.
pub open spec fn circuit_prepared<SP: SpendProver>(
    info: SpendDescriptionInfo,
    anchor: bls12_381::Scalar,
    circuit: Option<Spend>,
) -> bool {
    call_ensures(
        SP::prepare_circuit,
        (
            info.proof_generation_key(),
            info.note().recipient.diversifier,
            info.note().rseed,
            info.note().value,
            info.alpha(),
            info.rcv(),
            anchor,
            info.merkle_path(),
        ),
        circuit,
    )
}

/// `nullifier` is what the protocol makes of the spent note, the nullifier deriving
/// key of the spend and the position of the note.
pub open spec fn nullifier_derived<N: Protocol>(
    info: SpendDescriptionInfo,
    nullifier: Nullifier,
) -> bool {
    exists|nk: NullifierDerivingKey|
        nk@ == point_multiple(
            PROOF_GENERATION_KEY_GENERATOR@,
            info.proof_generation_key().nsk@ as int,
        ) && #[trigger] call_ensures(
            N::nf,
            (&info.note(), &nk, info.merkle_path().position),
            nullifier,
        )
}

/// The description is that of this spend, with its nullifier and circuit.
pub open spec fn spend_built<N: Protocol, SP: SpendProver>(
    info: SpendDescriptionInfo,
    anchor: bls12_381::Scalar,
    description: SpendDescription<InProgress<Unproven, Unsigned>>,
) -> bool {
    &&& describes_spend(info, anchor, description)
    &&& nullifier_derived::<N>(info, description.nullifier)
    &&& circuit_prepared::<SP>(info, anchor, Some(description.zkproof))
}

} // verus!
