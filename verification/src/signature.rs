//! RedJubjub keys and signatures.

use crate::point::{combination, is_point};
use crate::random::Drawn;
use crate::scalar::{le_value, scalar_order, Fr};
use core::marker::PhantomData;
use rand::rngs::StdRng;
use vstd::prelude::*;

verus! {

/// What a signature authorizes.
pub trait SigType {

}

/// Signatures that bind the value balance of a bundle to its commitments.
#[derive(Clone, Copy, Debug, PartialEq, Eq)]
pub struct Binding;

impl SigType for Binding {

}

/// Signatures that authorize a spend.
#[derive(Clone, Copy, Debug, PartialEq, Eq)]
pub struct SpendAuth;

impl SigType for SpendAuth {

}

/// A signature, by its 64 bytes.
#[derive(Debug, PartialEq, Eq)]
pub struct Signature<T: SigType> {
    pub(crate) bytes: [u8; 64],
    pub(crate) kind: PhantomData<T>,
}

impl<T: SigType> Clone for Signature<T> {
    fn clone(&self) -> (copy: Self)
        ensures
            copy == *self,
    {
        *self
    }
}

impl<T: SigType> Copy for Signature<T> {

}

impl<T: SigType> View for Signature<T> {
    type V = Seq<u8>;

    open(crate) spec fn view(&self) -> Seq<u8> {
        self.bytes@
    }
}

/// The signature with these bytes.
impl<T: SigType> From<[u8; 64]> for Signature<T> {
    fn from(bytes: [u8; 64]) -> (signature: Self)
        ensures
            signature@ == bytes@,
    {
        Signature { bytes, kind: PhantomData }
    }
}

impl<T: SigType> vstd::std_specs::convert::FromSpecImpl<[u8; 64]> for Signature<T> {
    open spec fn obeys_from_spec() -> bool {
        true
    }

    open(crate) spec fn from_spec(bytes: [u8; 64]) -> Self {
        Signature { bytes, kind: PhantomData }
    }
}

impl<T: SigType> Signature<T> {
    /// The bytes of this signature.
    pub fn to_bytes(&self) -> (bytes: [u8; 64])
        ensures
            bytes@ == self@,
    {
        self.bytes
    }
}

/// A signing key, by its scalar.
pub struct SigningKey<T: SigType> {
    pub(crate) scalar: Fr,
    pub(crate) kind: PhantomData<T>,
}

impl<T: SigType> Clone for SigningKey<T> {
    fn clone(&self) -> (copy: Self)
        ensures
            copy == *self,
    {
        *self
    }
}

impl<T: SigType> Copy for SigningKey<T> {

}

impl<T: SigType> View for SigningKey<T> {
    type V = nat;

    open(crate) spec fn view(&self) -> nat {
        self.scalar@
    }
}

/// A verification key, by its encoding, which is that of a point.
#[derive(Debug, PartialEq, Eq)]
pub struct VerificationKey<T: SigType> {
    pub(crate) bytes: [u8; 32],
    pub(crate) kind: PhantomData<T>,
}

impl<T: SigType> Clone for VerificationKey<T> {
    fn clone(&self) -> (copy: Self)
        ensures
            copy == *self,
    {
        *self
    }
}

impl<T: SigType> Copy for VerificationKey<T> {

}

impl<T: SigType> View for VerificationKey<T> {
    type V = Seq<u8>;

    open(crate) spec fn view(&self) -> Seq<u8> {
        self.bytes@
    }
}

impl<T: SigType> VerificationKey<T> {
    #[verifier::type_invariant]
    pub open(crate) spec fn decodes(self) -> bool {
        is_point(self.bytes@)
    }

    /// The encoding of this key.
    pub fn to_bytes(&self) -> (bytes: [u8; 32])
        ensures
            bytes@ == self@,
    {
        self.bytes
    }
}

/// The encoding of the spend verification key of a signing key, as
/// `redjubjub::VerificationKey::from` gives it.
pub uninterp spec fn spend_verification_key(sk: nat) -> Seq<u8>;

/// The encoding of the binding verification key of a signing key, as
/// `redjubjub::VerificationKey::from` gives it.
pub uninterp spec fn binding_verification_key(sk: nat) -> Seq<u8>;

/// The encoding of a randomized verification key, as
/// `redjubjub::VerificationKey::randomize` gives it.
pub uninterp spec fn randomized_key(vk: Seq<u8>, alpha: nat) -> Seq<u8>;

/// Whether `redjubjub::VerificationKey::<SpendAuth>::verify` accepts a signature.
pub uninterp spec fn spend_signature_accepted(vk: Seq<u8>, msg: Seq<u8>, sig: Seq<u8>) -> bool;

/// Whether `redjubjub::VerificationKey::<Binding>::verify` accepts a signature.
pub uninterp spec fn binding_signature_accepted(vk: Seq<u8>, msg: Seq<u8>, sig: Seq<u8>) -> bool;

impl<T: SigType> SigningKey<T> {
    /// The signing key with this scalar.
    pub fn from_scalar(scalar: Fr) -> (key: Self)
        ensures
            key@ == scalar@,
    {
        SigningKey { scalar, kind: PhantomData }
    }

    /// The encoding of this key, which is that of its scalar.
    pub fn to_bytes(&self) -> (bytes: [u8; 32])
        ensures
            le_value(bytes@) == self@,
    {
        self.scalar.to_bytes()
    }
}

/// The key of this scalar signs the message with a generator in the state `before`, which
/// is in the state `after` then.
pub open(crate) spec fn spend_signature_drawn(
    before: StdRng,
    sk: nat,
    msg: Seq<u8>,
    signature: Signature<SpendAuth>,
    after: StdRng,
) -> bool {
    exists|key: SigningKey<SpendAuth>, message: [u8; 32]|
        key@ == sk && message@ == msg && #[trigger] call_ensures(
            SigningKey::<SpendAuth>::draw_signature,
            (&key, before, &message),
            Drawn { value: signature, rng: after },
        )
}

/// A signature that counts as drawn is one that a key of this scalar made over the message
/// with the generator.
pub(crate) proof fn law_spend_signature_is_drawn(
    before: StdRng,
    sk: nat,
    msg: Seq<u8>,
    signature: Signature<SpendAuth>,
    after: StdRng,
)
    requires
        spend_signature_drawn(before, sk, msg, signature, after),
    ensures
        exists|key: SigningKey<SpendAuth>, message: [u8; 32]|
            key@ == sk && message@ == msg && #[trigger] call_ensures(
                SigningKey::<SpendAuth>::draw_signature,
                (&key, before, &message),
                (Drawn { value: signature, rng: after }),
            ),
        spend_signature_accepted(spend_verification_key(sk), msg, signature@),
{
}

impl SigningKey<SpendAuth> {
    /// `redjubjub::VerificationKey::<SpendAuth>::from`.
    #[verifier::external_body]
    pub(crate) fn spend_key(&self) -> (key: VerificationKey<SpendAuth>)
        ensures
            key@ == spend_verification_key(self@),
    {
        let sk = redjubjub::SigningKey::<redjubjub::SpendAuth>::try_from(self.scalar.bytes).unwrap();
        VerificationKey { bytes: redjubjub::VerificationKey::from(&sk).into(), kind: PhantomData }
    }

    /// `redjubjub::SigningKey::randomize`: adds the randomizer to the key. The
    /// verification key of the result is the randomized verification key.
    #[verifier::external_body]
    pub(crate) fn randomize(&self, alpha: &Fr) -> (key: SigningKey<SpendAuth>)
        ensures
            key@ == (self@ + alpha@) % scalar_order(),
            spend_verification_key(key@) == randomized_key(
                spend_verification_key(self@),
                alpha@,
            ),
    {
        let sk = redjubjub::SigningKey::<redjubjub::SpendAuth>::try_from(self.scalar.bytes).unwrap();
        let randomized = sk.randomize(&jubjub::Fr::from_bytes(&alpha.bytes).unwrap());
        SigningKey { scalar: Fr { bytes: randomized.into() }, kind: PhantomData }
    }

    /// `redjubjub::SigningKey::<SpendAuth>::sign`. Whatever nonce is drawn, the
    /// verification key of this key accepts the signature.
    #[verifier::external_body]
    pub(crate) fn draw_signature(&self, rng: StdRng, msg: &[u8; 32]) -> (drawn: Drawn<
        Signature<SpendAuth>,
    >)
        ensures
            spend_signature_accepted(spend_verification_key(self@), msg@, drawn.value@),
    {
        let mut rng = rng;
        let sk = redjubjub::SigningKey::<redjubjub::SpendAuth>::try_from(self.scalar.bytes).unwrap();
        let value = Signature { bytes: sk.sign(&mut rng, msg).into(), kind: PhantomData };
        Drawn { value, rng }
    }

    /// Signs a message.
    pub(crate) fn sign(&self, rng: &mut StdRng, msg: &[u8; 32]) -> (signature: Signature<SpendAuth>)
        ensures
            spend_signature_accepted(spend_verification_key(self@), msg@, signature@),
            spend_signature_drawn(*old(rng), self@, msg@, signature, *final(rng)),
    {
        let ghost before = *rng;
        let drawn = self.draw_signature(rng.clone(), msg);
        assert(call_ensures(SigningKey::<SpendAuth>::draw_signature, (self, before, msg), drawn));
        *rng = drawn.rng;
        drawn.value
    }
}

/// The key of this scalar signs the message with a generator in the state `before`, which
/// is in the state `after` then.
pub open(crate) spec fn binding_signature_drawn(
    before: StdRng,
    sk: nat,
    msg: Seq<u8>,
    signature: Signature<Binding>,
    after: StdRng,
) -> bool {
    exists|key: SigningKey<Binding>, message: [u8; 32]|
        key@ == sk && message@ == msg && #[trigger] call_ensures(
            SigningKey::<Binding>::draw_signature,
            (&key, before, &message),
            Drawn { value: signature, rng: after },
        )
}

/// A signature that counts as drawn is one that a key of this scalar made over the message
/// with the generator.
pub(crate) proof fn law_binding_signature_is_drawn(
    before: StdRng,
    sk: nat,
    msg: Seq<u8>,
    signature: Signature<Binding>,
    after: StdRng,
)
    requires
        binding_signature_drawn(before, sk, msg, signature, after),
    ensures
        exists|key: SigningKey<Binding>, message: [u8; 32]|
            key@ == sk && message@ == msg && #[trigger] call_ensures(
                SigningKey::<Binding>::draw_signature,
                (&key, before, &message),
                (Drawn { value: signature, rng: after }),
            ),
        binding_signature_accepted(binding_verification_key(sk), msg, signature@),
{
}

impl SigningKey<Binding> {
    /// `redjubjub::VerificationKey::<Binding>::from`: the key times the base point
    /// of binding signatures, which is the randomness generator.
    #[verifier::external_body]
    pub(crate) fn binding_key(&self) -> (key: VerificationKey<Binding>)
        ensures
            key@ == binding_verification_key(self@),
            forall|y: int|
                y % (scalar_order() as int) == self@ ==> key@ == #[trigger] combination(0, y),
    {
        let sk = redjubjub::SigningKey::<redjubjub::Binding>::try_from(self.scalar.bytes).unwrap();
        VerificationKey { bytes: redjubjub::VerificationKey::from(&sk).into(), kind: PhantomData }
    }

    /// `redjubjub::SigningKey::<Binding>::sign`. Whatever nonce is drawn, the
    /// verification key of this key accepts the signature.
    #[verifier::external_body]
    pub(crate) fn draw_signature(&self, rng: StdRng, msg: &[u8; 32]) -> (drawn: Drawn<
        Signature<Binding>,
    >)
        ensures
            binding_signature_accepted(binding_verification_key(self@), msg@, drawn.value@),
    {
        let mut rng = rng;
        let sk = redjubjub::SigningKey::<redjubjub::Binding>::try_from(self.scalar.bytes).unwrap();
        let value = Signature { bytes: sk.sign(&mut rng, msg).into(), kind: PhantomData };
        Drawn { value, rng }
    }

    /// Signs a message.
    pub(crate) fn sign(&self, rng: &mut StdRng, msg: &[u8; 32]) -> (signature: Signature<Binding>)
        ensures
            binding_signature_accepted(binding_verification_key(self@), msg@, signature@),
            binding_signature_drawn(*old(rng), self@, msg@, signature, *final(rng)),
    {
        let ghost before = *rng;
        let drawn = self.draw_signature(rng.clone(), msg);
        assert(call_ensures(SigningKey::<Binding>::draw_signature, (self, before, msg), drawn));
        *rng = drawn.rng;
        drawn.value
    }
}

impl VerificationKey<Binding> {
    /// `redjubjub::VerificationKey::<Binding>::verify`.
    #[verifier::external_body]
    pub(crate) fn verify(&self, msg: &[u8; 32], signature: &Signature<Binding>) -> (accepted: bool)
        ensures
            accepted == binding_signature_accepted(self@, msg@, signature@),
    {
        let vk = redjubjub::VerificationKey::<redjubjub::Binding>::try_from(self.bytes).unwrap();
        vk.verify(msg, &redjubjub::Signature::from(signature.bytes)).is_ok()
    }
}

impl VerificationKey<SpendAuth> {
    /// `redjubjub::VerificationKey::randomize`.
    #[verifier::external_body]
    pub(crate) fn randomize(&self, alpha: &Fr) -> (key: VerificationKey<SpendAuth>)
        ensures
            key@ == randomized_key(self@, alpha@),
    {
        let vk = redjubjub::VerificationKey::<redjubjub::SpendAuth>::try_from(self.bytes).unwrap();
        let randomized = vk.randomize(&jubjub::Fr::from_bytes(&alpha.bytes).unwrap());
        VerificationKey { bytes: randomized.into(), kind: PhantomData }
    }

    /// `redjubjub::VerificationKey::<SpendAuth>::verify`.
    #[verifier::external_body]
    pub(crate) fn verify(&self, msg: &[u8; 32], signature: &Signature<SpendAuth>) -> (accepted: bool)
        ensures
            accepted == spend_signature_accepted(self@, msg@, signature@),
    {
        let vk = redjubjub::VerificationKey::<redjubjub::SpendAuth>::try_from(self.bytes).unwrap();
        vk.verify(msg, &redjubjub::Signature::from(signature.bytes)).is_ok()
    }
}

} // verus!
