//! The keys that notes are spent with.

use crate::point::{multiply, point_multiple, PROOF_GENERATION_KEY_GENERATOR};
use crate::scalar::{scalar_order, Fr};
use crate::signature::{
    randomized_key, spend_verification_key, SigningKey, SpendAuth, VerificationKey,
};
use vstd::prelude::*;

verus! {

/// The key that authorizes spends. The view is its scalar.
#[derive(Clone, Copy)]
pub struct SpendAuthorizingKey {
    pub(crate) key: SigningKey<SpendAuth>,
}

impl View for SpendAuthorizingKey {
    type V = nat;

    open(crate) spec fn view(&self) -> nat {
        self.key@
    }
}

impl SpendAuthorizingKey {
    /// The key with this scalar.
    pub fn from_scalar(scalar: Fr) -> (key: Self)
        ensures
            key@ == scalar@,
    {
        SpendAuthorizingKey { key: SigningKey::from_scalar(scalar) }
    }

    /// The public key that belongs to this one.
    pub fn validating_key(&self) -> (ak: SpendValidatingKey)
        ensures
            ak@ == spend_verification_key(self@),
    {
        SpendValidatingKey { key: self.key.spend_key() }
    }

    /// Adds a randomizer to this key.
    pub fn randomize(&self, alpha: &Fr) -> (rsk: SigningKey<SpendAuth>)
        ensures
            rsk@ == (self@ + alpha@) % scalar_order(),
            spend_verification_key(rsk@) == randomized_key(spend_verification_key(self@), alpha@),
    {
        self.key.randomize(alpha)
    }
}

/// The key that spend authorizations are checked with, before randomization. The
/// view is its encoding.
#[derive(Clone, Copy, Debug)]
pub struct SpendValidatingKey {
    pub(crate) key: VerificationKey<SpendAuth>,
}

impl View for SpendValidatingKey {
    type V = Seq<u8>;

    open(crate) spec fn view(&self) -> Seq<u8> {
        self.key@
    }
}

impl SpendValidatingKey {
    /// Randomizes this key.
    pub fn randomize(&self, alpha: &Fr) -> (rk: VerificationKey<SpendAuth>)
        ensures
            rk@ == randomized_key(self@, alpha@),
    {
        self.key.randomize(alpha)
    }

    /// The encoding of this key.
    pub fn to_bytes(&self) -> (bytes: [u8; 32])
        ensures
            bytes@ == self@,
    {
        self.key.to_bytes()
    }
}

impl PartialEq for SpendValidatingKey {
    fn eq(&self, other: &Self) -> (equal: bool) {
        let mut i: usize = 0;
        while i < 32
            invariant
                i <= 32,
                forall|j: int| 0 <= j < i ==> self.key.bytes@[j] == other.key.bytes@[j],
            decreases 32 - i,
        {
            if self.key.bytes[i] != other.key.bytes[i] {
                return false;
            }
            i = i + 1;
        }
        assert(self@ =~= other@);
        true
    }
}

impl vstd::std_specs::cmp::PartialEqSpecImpl for SpendValidatingKey {
    open spec fn obeys_eq_spec() -> bool {
        true
    }

    open spec fn eq_spec(&self, other: &Self) -> bool {
        self@ == other@
    }
}

impl Eq for SpendValidatingKey {

}

/// The key that nullifiers are derived with. The view is its encoding.
#[derive(Clone, Copy, Debug, PartialEq, Eq)]
pub struct NullifierDerivingKey {
    pub(crate) bytes: [u8; 32],
}

impl View for NullifierDerivingKey {
    type V = Seq<u8>;

    open(crate) spec fn view(&self) -> Seq<u8> {
        self.bytes@
    }
}

impl NullifierDerivingKey {
    /// The encoding of this key.
    pub fn to_bytes(&self) -> (bytes: [u8; 32])
        ensures
            bytes@ == self@,
    {
        self.bytes
    }
}

/// The public half of a proof generation key.
#[derive(Clone, Copy, Debug)]
pub struct ViewingKey {
    pub ak: SpendValidatingKey,
    pub nk: NullifierDerivingKey,
}

/// The key that spend proofs are made with.
#[derive(Clone, Copy, Debug)]
pub struct ProofGenerationKey {
    pub ak: SpendValidatingKey,
    pub nsk: Fr,
}

impl ProofGenerationKey {
    /// The viewing key that belongs to this key.
    pub fn to_viewing_key(&self) -> (vk: ViewingKey)
        ensures
            vk.ak == self.ak,
            vk.nk@ == point_multiple(PROOF_GENERATION_KEY_GENERATOR@, self.nsk@ as int),
    {
        ViewingKey {
            ak: self.ak,
            nk: NullifierDerivingKey {
                bytes: multiply(&PROOF_GENERATION_KEY_GENERATOR, &self.nsk),
            },
        }
    }
}

/// The key with which the sender can read an output again.
#[derive(Clone, Copy, Debug, PartialEq, Eq)]
pub struct OutgoingViewingKey(pub [u8; 32]);

/// The components of a spending key.
#[derive(Clone, Copy)]
pub struct ExpandedSpendingKey {
    pub ask: SpendAuthorizingKey,
    pub nsk: Fr,
    pub ovk: OutgoingViewingKey,
}

impl ExpandedSpendingKey {
    /// The proof generation key that belongs to this key.
    pub fn proof_generation_key(&self) -> (key: ProofGenerationKey)
        ensures
            key.ak@ == spend_verification_key(self.ask@),
            key.nsk == self.nsk,
    {
        ProofGenerationKey { ak: self.ask.validating_key(), nsk: self.nsk }
    }
}

/// A spending key.
#[derive(Clone, Copy)]
pub struct ExtendedSpendingKey {
    pub expsk: ExpandedSpendingKey,
}

} // verus!
