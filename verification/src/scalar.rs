//! Scalars of the Jubjub group: integers modulo the order of its prime subgroup.

use crate::random::Drawn;
use group::ff::Field;
use rand::rngs::StdRng;
use vstd::prelude::*;

verus! {

/// The order of the prime subgroup of Jubjub.
pub open spec fn scalar_order() -> nat {
    0x0e7db4ea6533afa906673b0101343b00a6682093ccc81082d0970e5ed6f72cb7nat
}

/// The integer that a little-endian byte string stands for.
pub open spec fn le_value(bytes: Seq<u8>) -> nat
    decreases bytes.len(),
{
    if bytes.len() == 0 {
        0
    } else {
        bytes[0] as nat + 256 * le_value(bytes.skip(1))
    }
}

/// An integer below the order of the prime subgroup, kept as its canonical
/// little-endian encoding. The view is that integer.
#[derive(Clone, Copy, Debug, PartialEq, Eq)]
pub struct Fr {
    pub(crate) bytes: [u8; 32],
}

impl View for Fr {
    type V = nat;

    open(crate) spec fn view(&self) -> nat {
        le_value(self.bytes@)
    }
}

/// A generator in the state `before` gives this scalar, and is in the state `after`
/// then.
pub open(crate) spec fn scalar_drawn(before: StdRng, scalar: Fr, after: StdRng) -> bool {
    call_ensures(Fr::draw, (before,), Drawn { value: scalar, rng: after })
}

/// A scalar that counts as drawn is what the field drew from the generator.
pub(crate) proof fn law_scalar_is_drawn(before: StdRng, scalar: Fr, after: StdRng)
    requires
        scalar_drawn(before, scalar, after),
    ensures
        call_ensures(Fr::draw, (before,), (Drawn { value: scalar, rng: after })),
{
}

impl Fr {
    #[verifier::type_invariant]
    pub open(crate) spec fn canonical(self) -> bool {
        le_value(self.bytes@) < scalar_order()
    }

    /// The canonical encoding.
    pub fn to_bytes(&self) -> (bytes: [u8; 32])
        ensures
            le_value(bytes@) == self@,
            self@ < scalar_order(),
    {
        proof {
            use_type_invariant(self);
        }
        self.bytes
    }

    /// `jubjub::Fr::from_bytes`: decodes an encoding, and refuses one that is not
    /// below the order.
    #[verifier::external_body]
    pub(crate) fn decode(bytes: &[u8; 32]) -> (scalar: Option<Fr>)
        ensures
            scalar is Some <==> le_value(bytes@) < scalar_order(),
            scalar matches Some(s) ==> s@ == le_value(bytes@),
    {
        let decoded: Option<jubjub::Fr> = jubjub::Fr::from_bytes(bytes).into();
        decoded.map(|s| Fr { bytes: s.to_bytes() })
    }

    /// Decodes a canonical encoding; `None` where it is not one.
    pub fn from_bytes(bytes: &[u8; 32]) -> (scalar: Option<Fr>)
        ensures
            scalar is Some <==> le_value(bytes@) < scalar_order(),
            scalar matches Some(s) ==> s@ == le_value(bytes@),
    {
        Self::decode(bytes)
    }

    /// `jubjub::Fr::from` on a `u64`: the scalar of that value.
    #[verifier::external_body]
    pub(crate) fn from_u64(value: u64) -> (scalar: Fr)
        ensures
            scalar@ == value,
    {
        Fr { bytes: jubjub::Fr::from(value).to_bytes() }
    }

    /// `group::ff::Field::random` on `jubjub::Fr`. Nothing is claimed of which
    /// scalar is drawn.
    #[verifier::external_body]
    pub(crate) fn draw(rng: StdRng) -> (drawn: Drawn<Fr>) {
        let mut rng = rng;
        let value = Fr { bytes: jubjub::Fr::random(&mut rng).to_bytes() };
        Drawn { value, rng }
    }

    /// Draws a scalar.
    pub(crate) fn random(rng: &mut StdRng) -> (scalar: Fr)
        ensures
            scalar_drawn(*old(rng), scalar, *final(rng)),
            call_ensures(Fr::draw, (*old(rng),), (Drawn { value: scalar, rng: *final(rng) })),
    {
        let drawn = Fr::draw(rng.clone());
        *rng = drawn.rng;
        drawn.value
    }

    /// `jubjub::Fr::add`: the sum, modulo the order.
    #[verifier::external_body]
    pub(crate) fn plus(&self, other: &Fr) -> (sum: Fr)
        ensures
            sum@ == (self@ + other@) % scalar_order(),
    {
        let a = jubjub::Fr::from_bytes(&self.bytes).unwrap();
        let b = jubjub::Fr::from_bytes(&other.bytes).unwrap();
        Fr { bytes: a.add(&b).to_bytes() }
    }

    /// `jubjub::Fr::sub`: the difference, modulo the order.
    #[verifier::external_body]
    pub(crate) fn minus(&self, other: &Fr) -> (difference: Fr)
        ensures
            difference@ == (self@ - other@) % (scalar_order() as int),
    {
        let a = jubjub::Fr::from_bytes(&self.bytes).unwrap();
        let b = jubjub::Fr::from_bytes(&other.bytes).unwrap();
        Fr { bytes: a.sub(&b).to_bytes() }
    }
}

} // verus!
