//! The circuits of spends and outputs, and the provers for them.

use crate::keys::ProofGenerationKey;
use crate::note::{Diversifier, MerklePath, PaymentAddress, Rseed};
use crate::random::Drawn;
use crate::scalar::Fr;
use crate::value::{NoteValue, ValueCommitTrapdoor};
use rand::rngs::StdRng;
use vstd::prelude::*;

verus! {

/// An encoded Groth16 proof.
pub type GrothProofBytes = [u8; 192];

/// The opening of a value commitment.
#[derive(Clone, Copy, Debug)]
pub struct ValueCommitmentOpening {
    pub value: NoteValue,
    pub randomness: Fr,
}

/// The circuit of a spend, with its private inputs.
#[derive(Clone, Debug)]
pub struct Spend {
    pub value_commitment_opening: Option<ValueCommitmentOpening>,
    pub proof_generation_key: Option<ProofGenerationKey>,
    pub payment_address: Option<PaymentAddress>,
    pub commitment_randomness: Option<Fr>,
    pub ar: Option<Fr>,
    pub auth_path: Vec<Option<(bls12_381::Scalar, bool)>>,
    pub anchor: Option<bls12_381::Scalar>,
}

/// The circuit of an output, with its private inputs.
#[derive(Clone, Debug)]
pub struct Output {
    pub value_commitment_opening: Option<ValueCommitmentOpening>,
    pub payment_address: Option<PaymentAddress>,
    pub commitment_randomness: Option<Fr>,
    pub esk: Option<Fr>,
}

/// Makes the proofs of spends.
pub trait SpendProver {
    /// The proof, before it is encoded.
    type Proof;

    /// Prepares the circuit of a spend. `None` where the diversifier has no
    /// address.
    fn prepare_circuit(
        proof_generation_key: ProofGenerationKey,
        diversifier: Diversifier,
        rseed: Rseed,
        value: NoteValue,
        alpha: Fr,
        rcv: ValueCommitTrapdoor,
        anchor: bls12_381::Scalar,
        merkle_path: MerklePath,
    ) -> Option<Spend>;

    /// Proves a spend.
    fn create_proof(&self, circuit: Spend, rng: &mut StdRng) -> Self::Proof;

    /// Encodes a proof.
    fn encode_proof(proof: Self::Proof) -> GrothProofBytes;
}

/// Makes the proofs of outputs.
pub trait OutputProver {
    /// The proof, before it is encoded.
    type Proof;

    /// Prepares the circuit of an output.
    fn prepare_circuit(
        esk: Fr,
        payment_address: PaymentAddress,
        rcm: Fr,
        value: NoteValue,
        rcv: ValueCommitTrapdoor,
    ) -> Output;

    /// Proves an output.
    fn create_proof(&self, circuit: Output, rng: &mut StdRng) -> Self::Proof;

    /// Encodes a proof.
    fn encode_proof(proof: Self::Proof) -> GrothProofBytes;
}

/// Proves a spend. The prover works on the generator that is handed over, which comes back
/// with the proof.
pub fn draw_spend_proof<SP: SpendProver>(
    prover: &SP,
    circuit: Spend,
    rng: StdRng,
) -> (drawn: Drawn<SP::Proof>)
    ensures
        exists|used: &mut StdRng|
            *used == rng && *final(used) == drawn.rng && #[trigger] call_ensures(
                SP::create_proof,
                (prover, circuit, used),
                drawn.value,
            ),
{
    let mut generator = rng;
    let value = prover.create_proof(circuit, &mut generator);
    let drawn = Drawn { value, rng: generator };
    proof {
        let used = choose|used: &mut StdRng|
            *used == rng && *final(used) == generator && #[trigger] call_ensures(
                SP::create_proof,
                (prover, circuit, used),
                value,
            );
        assert(call_ensures(SP::create_proof, (prover, circuit, used), drawn.value));
    }
    drawn
}

/// With a generator in the state `before`, the prover makes this proof for the circuit, and
/// leaves the generator in the state `after`.
pub open spec fn spend_proof_drawn<SP: SpendProver>(
    before: StdRng,
    prover: SP,
    circuit: Spend,
    made: SP::Proof,
    after: StdRng,
) -> bool {
    call_ensures(
        draw_spend_proof::<SP>,
        (&prover, circuit, before),
        Drawn { value: made, rng: after },
    )
}

/// Proves an output. The prover works on the generator that is handed over, which comes back
/// with the proof.
pub fn draw_output_proof<OP: OutputProver>(
    prover: &OP,
    circuit: Output,
    rng: StdRng,
) -> (drawn: Drawn<OP::Proof>)
    ensures
        exists|used: &mut StdRng|
            *used == rng && *final(used) == drawn.rng && #[trigger] call_ensures(
                OP::create_proof,
                (prover, circuit, used),
                drawn.value,
            ),
{
    let mut generator = rng;
    let value = prover.create_proof(circuit, &mut generator);
    let drawn = Drawn { value, rng: generator };
    proof {
        let used = choose|used: &mut StdRng|
            *used == rng && *final(used) == generator && #[trigger] call_ensures(
                OP::create_proof,
                (prover, circuit, used),
                value,
            );
        assert(call_ensures(OP::create_proof, (prover, circuit, used), drawn.value));
    }
    drawn
}

/// With a generator in the state `before`, the prover makes this proof for the circuit, and
/// leaves the generator in the state `after`.
pub open spec fn output_proof_drawn<OP: OutputProver>(
    before: StdRng,
    prover: OP,
    circuit: Output,
    made: OP::Proof,
    after: StdRng,
) -> bool {
    call_ensures(
        draw_output_proof::<OP>,
        (&prover, circuit, before),
        Drawn { value: made, rng: after },
    )
}

} // verus!
