//! A bundle of spends and outputs, at any stage of its authorization.

use crate::note::{ExtractedNoteCommitment, Nullifier};
use crate::prover::GrothProofBytes;
use crate::signature::{Binding, Signature, SpendAuth, VerificationKey};
use crate::value::ValueCommitment;
use vstd::prelude::*;

verus! {

/// How far a bundle is authorized: what stands in it for proofs and signatures.
pub trait Authorization {
    type SpendProof;
    type OutputProof;
    type AuthSig;
}

/// A bundle with all its proofs and signatures.
#[derive(Clone, Copy, Debug)]
pub struct Authorized {
    pub binding_sig: Signature<Binding>,
}

impl Authorization for Authorized {
    type SpendProof = GrothProofBytes;

    type OutputProof = GrothProofBytes;

    type AuthSig = Signature<SpendAuth>;
}

/// The public part of a spend.
pub struct SpendDescription<A: Authorization> {
    pub cv: ValueCommitment,
    pub anchor: bls12_381::Scalar,
    pub nullifier: Nullifier,
    pub rk: VerificationKey<SpendAuth>,
    pub zkproof: A::SpendProof,
    pub spend_auth_sig: A::AuthSig,
}

/// The public part of an output.
pub struct OutputDescription<Proof> {
    pub cv: ValueCommitment,
    pub cmu: ExtractedNoteCommitment,
    pub ephemeral_key: [u8; 32],
    pub enc_ciphertext: [u8; 580],
    pub out_ciphertext: [u8; 80],
    pub zkproof: Proof,
}

/// The spends and outputs of a transaction, with the net value that leaves the
/// pool through them.
pub struct Bundle<A: Authorization, V> {
    pub shielded_spends: Vec<SpendDescription<A>>,
    pub shielded_outputs: Vec<OutputDescription<A::OutputProof>>,
    pub value_balance: V,
    pub authorization: A,
}

impl<A: Authorization, V> Bundle<A, V> {
    /// Puts a bundle together. There is none without spends and outputs.
    pub fn from_parts(
        shielded_spends: Vec<SpendDescription<A>>,
        shielded_outputs: Vec<OutputDescription<A::OutputProof>>,
        value_balance: V,
        authorization: A,
    ) -> (bundle: Option<Self>)
        ensures
            bundle == if shielded_spends@.len() == 0 && shielded_outputs@.len() == 0 {
                None
            } else {
                Some(
                    (Bundle {
                        shielded_spends,
                        shielded_outputs,
                        value_balance,
                        authorization,
                    }),
                )
            },
    {
        if shielded_spends.is_empty() && shielded_outputs.is_empty() {
            None
        } else {
            Some(Bundle { shielded_spends, shielded_outputs, value_balance, authorization })
        }
    }
}

} // verus!
