//! The stages of a bundle that is being built, proven and signed.

use crate::bundle::Authorization;
use crate::error::Error;
use crate::keys::SpendValidatingKey;
use crate::prover::{GrothProofBytes, Output, Spend};
use crate::scalar::Fr;
use crate::signature::{Binding, Signature, SigningKey, SpendAuth};
use core::fmt;
use core::marker::PhantomData;
use vstd::prelude::*;

verus! {

/// Marker trait representing bundle proofs in the process of being created.
pub trait InProgressProofs: fmt::Debug {
    /// The proof type of a Sapling spend in the process of being proven.
    type SpendProof: Clone + fmt::Debug;

    /// The proof type of a Sapling output in the process of being proven.
    type OutputProof: Clone + fmt::Debug;
}

/// Marker trait representing bundle signatures in the process of being created.
pub trait InProgressSignatures {
    /// The authorization type of a Sapling spend or output in the process of being
    /// authorized.
    type AuthSig: Clone + fmt::Debug;
}

/// Marker for a bundle in the process of being built.
pub struct InProgress<P: InProgressProofs, S: InProgressSignatures> {
    pub(crate) sigs: S,
    pub(crate) proof_state: PhantomData<P>,
}

impl<P: InProgressProofs, S: InProgressSignatures> InProgress<P, S> {
    /// How far the signatures are.
    pub open(crate) spec fn sigs(&self) -> S {
        self.sigs
    }
}

impl<P: InProgressProofs, S: InProgressSignatures + Clone> Clone for InProgress<P, S> {
    fn clone(&self) -> (copy: Self)
        ensures
            cloned(self.sigs(), copy.sigs()),
    {
        InProgress { sigs: self.sigs.clone(), proof_state: PhantomData }
    }
}

impl<P: InProgressProofs, S: InProgressSignatures> Authorization for InProgress<P, S> {
    type SpendProof = P::SpendProof;

    type OutputProof = P::OutputProof;

    type AuthSig = S::AuthSig;
}

/// Marker for a bundle without proofs.
///
/// The spends and outputs within the bundle contain the private data needed to
/// create proofs.
#[derive(Clone, Copy, Debug)]
pub struct Unproven;

impl InProgressProofs for Unproven {
    type SpendProof = Spend;

    type OutputProof = Output;
}

/// Marker for a bundle with proofs.
#[derive(Clone, Copy, Debug)]
pub struct Proven;

impl InProgressProofs for Proven {
    type SpendProof = GrothProofBytes;

    type OutputProof = GrothProofBytes;
}

/// Marker for an unauthorized bundle with no signatures.
#[derive(Clone, Copy)]
pub struct Unsigned {
    pub(crate) bsk: SigningKey<Binding>,
}

impl Unsigned {
    /// The binding signing key of the bundle.
    pub open(crate) spec fn bsk(&self) -> SigningKey<Binding> {
        self.bsk
    }

    /// A text for debugging output, in which the signing key does not appear.
    pub fn debug_text(&self) -> (text: String)
        ensures
            text@ == "Unsigned { .. }"@,
    {
        "Unsigned { .. }".to_string()
    }
}

impl InProgressSignatures for Unsigned {
    type AuthSig = SigningParts;
}

/// The parts needed to sign a spend.
#[derive(Clone, Copy, Debug)]
pub struct SigningParts {
    /// The spend validating key for this spend description. Used to match spend
    /// authorizing keys to spend descriptions they can create signatures for.
    pub(crate) ak: SpendValidatingKey,
    /// The randomization needed to derive the actual signing key for this note.
    pub(crate) alpha: Fr,
}

impl SigningParts {
    /// The spend validating key for this spend.
    pub open(crate) spec fn ak(&self) -> SpendValidatingKey {
        self.ak
    }

    /// The randomizer for this spend.
    pub open(crate) spec fn alpha(&self) -> Fr {
        self.alpha
    }
}

/// Marker for a partially-authorized bundle, in the process of being signed.
#[derive(Clone, Copy, Debug)]
pub struct PartiallyAuthorized {
    pub(crate) binding_signature: Signature<Binding>,
    pub(crate) sighash: [u8; 32],
}

impl PartiallyAuthorized {
    /// The binding signature of the bundle.
    pub open(crate) spec fn binding_signature(&self) -> Signature<Binding> {
        self.binding_signature
    }

    /// The hash that every signature of the bundle is made over.
    pub open(crate) spec fn sighash(&self) -> Seq<u8> {
        self.sighash@
    }
}

impl InProgressSignatures for PartiallyAuthorized {
    type AuthSig = MaybeSigned;
}

/// A signature for a particular spend, or what is needed to make it.
#[derive(Clone, Copy, Debug)]
pub enum MaybeSigned {
    /// The information needed to sign this spend.
    SigningMetadata(SigningParts),
    /// The signature for this spend.
    Signature(Signature<SpendAuth>),
}

impl MaybeSigned {
    /// The signature, which must be there by now.
    pub(crate) fn finalize(self) -> (signature: Result<Signature<SpendAuth>, Error>)
        ensures
            signature == match self {
                MaybeSigned::Signature(sig) => Ok::<Signature<SpendAuth>, Error>(sig),
                MaybeSigned::SigningMetadata(_) => Err(Error::MissingSignatures),
            },
    {
        match self {
            MaybeSigned::Signature(sig) => Ok(sig),
            _ => Err(Error::MissingSignatures),
        }
    }
}

} // verus!
