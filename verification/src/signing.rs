//! Signing a bundle.

use crate::assembly::{bvk_of, compute_bvk, output_commitments, spend_commitments};
use crate::bundle::{Authorization, Authorized, Bundle, SpendDescription};
use crate::error::Error;
use crate::in_progress::{
    InProgress, InProgressProofs, MaybeSigned, PartiallyAuthorized, Proven, SigningParts, Unsigned,
};
use crate::keys::SpendAuthorizingKey;
use crate::scalar::scalar_order;
use crate::signature::{
    binding_signature_accepted, binding_signature_drawn, binding_verification_key, randomized_key,
    spend_signature_accepted, spend_signature_drawn, spend_verification_key, Signature, SpendAuth,
};
use crate::signing_laws::law_every_signature_is_valid;
use core::marker::PhantomData;
use rand::rngs::StdRng;
use vstd::prelude::*;

verus! {

/// The spends agree in everything but the signature.
pub open spec fn same_spend<A: Authorization, B: Authorization<SpendProof = A::SpendProof>>(
    before: SpendDescription<A>,
    after: SpendDescription<B>,
) -> bool {
    &&& after.cv == before.cv
    &&& after.anchor == before.anchor
    &&& after.nullifier == before.nullifier
    &&& after.rk == before.rk
    &&& after.zkproof == before.zkproof
}

/// The bundles agree in everything but the signatures.
pub open spec fn same_effects<
    A: Authorization,
    B: Authorization<SpendProof = A::SpendProof, OutputProof = A::OutputProof>,
    V,
>(before: Bundle<A, V>, after: Bundle<B, V>) -> bool {
    &&& after.shielded_spends@.len() == before.shielded_spends@.len()
    &&& forall|i: int|
        0 <= i < before.shielded_spends@.len() ==> same_spend(
            before.shielded_spends@[i],
            #[trigger] after.shielded_spends@[i],
        )
    &&& after.shielded_outputs == before.shielded_outputs
    &&& after.value_balance == before.value_balance
}

/// The state of the signature of every spend.
pub open spec fn spend_signatures<P: InProgressProofs, V>(
    bundle: Bundle<InProgress<P, PartiallyAuthorized>, V>,
) -> Seq<MaybeSigned> {
    Seq::new(
        bundle.shielded_spends@.len(),
        |i: int| bundle.shielded_spends@[i].spend_auth_sig,
    )
}

/// The verification key of every spend.
pub open spec fn spend_keys<A: Authorization, V>(bundle: Bundle<A, V>) -> Seq<Seq<u8>> {
    Seq::new(bundle.shielded_spends@.len(), |i: int| bundle.shielded_spends@[i].rk@)
}

/// The signature is one that the randomized key of a spend accepts.
pub open spec fn accepted_for(
    parts: SigningParts,
    sighash: Seq<u8>,
    signature: Signature<SpendAuth>,
) -> bool {
    spend_signature_accepted(randomized_key(parts.ak()@, parts.alpha()@), sighash, signature@)
}

/// The verification key of every spend is the one that its signing parts give.
pub open spec fn keys_match<P: InProgressProofs, V>(
    bundle: Bundle<InProgress<P, Unsigned>, V>,
) -> bool {
    forall|i: int|
        0 <= i < bundle.shielded_spends@.len() ==> (#[trigger] bundle.shielded_spends@[i]).rk@
            == randomized_key(
            bundle.shielded_spends@[i].spend_auth_sig.ak()@,
            bundle.shielded_spends@[i].spend_auth_sig.alpha()@,
        )
}

/// The verification key of every spend accepts its signature over the sighash of the
/// bundle, or is the one that its signing parts give.
pub open spec fn signatures_valid<P: InProgressProofs, V>(
    bundle: Bundle<InProgress<P, PartiallyAuthorized>, V>,
) -> bool {
    forall|i: int|
        0 <= i < bundle.shielded_spends@.len() ==> match (
        #[trigger] bundle.shielded_spends@[i]).spend_auth_sig {
            MaybeSigned::SigningMetadata(parts) => bundle.shielded_spends@[i].rk@
                == randomized_key(parts.ak()@, parts.alpha()@),
            MaybeSigned::Signature(signature) => spend_signature_accepted(
                bundle.shielded_spends@[i].rk@,
                bundle.authorization.sigs().sighash(),
                signature@,
            ),
        }
}

/// The verification key of every spend accepts its signature over `sighash`.
pub open spec fn spends_authorized<V>(bundle: Bundle<Authorized, V>, sighash: Seq<u8>) -> bool {
    forall|i: int|
        0 <= i < bundle.shielded_spends@.len() ==> spend_signature_accepted(
            (#[trigger] bundle.shielded_spends@[i]).rk@,
            sighash,
            bundle.shielded_spends@[i].spend_auth_sig@,
        )
}

/// The bundle as it was, with nothing signed yet but for the binding signature over
/// `sighash`.
pub open spec fn prepared<P: InProgressProofs, V>(
    before: Bundle<InProgress<P, Unsigned>, V>,
    sighash: Seq<u8>,
    after: Bundle<InProgress<P, PartiallyAuthorized>, V>,
) -> bool {
    &&& same_effects(before, after)
    &&& forall|i: int|
        0 <= i < before.shielded_spends@.len() ==> (
        #[trigger] after.shielded_spends@[i]).spend_auth_sig == MaybeSigned::SigningMetadata(
            before.shielded_spends@[i].spend_auth_sig,
        )
    &&& after.authorization.sigs().sighash() == sighash
    &&& binding_signature_accepted(
        binding_verification_key(before.authorization.sigs().bsk()@),
        sighash,
        after.authorization.sigs().binding_signature()@,
    )
}

impl<P: InProgressProofs, V> Bundle<InProgress<P, Unsigned>, V> {
    /// Loads the sighash into this bundle, preparing it for signing.
    ///
    /// This API ensures that all signatures are created over the same sighash.
    pub fn prepare(self, rng: &mut StdRng, sighash: [u8; 32]) -> (bundle: Bundle<
        InProgress<P, PartiallyAuthorized>,
        V,
    >)
        ensures
            prepared(self, sighash@, bundle),
            bundle.shielded_spends@.len() == self.shielded_spends@.len(),
            forall|i: int|
                0 <= i < self.shielded_spends@.len() ==> (#[trigger] bundle.shielded_spends@[i]).cv
                    == self.shielded_spends@[i].cv && bundle.shielded_spends@[i].anchor
                    == self.shielded_spends@[i].anchor && bundle.shielded_spends@[i].nullifier
                    == self.shielded_spends@[i].nullifier && bundle.shielded_spends@[i].rk
                    == self.shielded_spends@[i].rk && bundle.shielded_spends@[i].zkproof
                    == self.shielded_spends@[i].zkproof,
            bundle.shielded_outputs == self.shielded_outputs,
            bundle.value_balance == self.value_balance,
            forall|i: int|
                0 <= i < self.shielded_spends@.len() ==> (
                #[trigger] bundle.shielded_spends@[i]).spend_auth_sig
                    == MaybeSigned::SigningMetadata(self.shielded_spends@[i].spend_auth_sig),
            bundle.authorization.sigs().sighash() == sighash@,
            binding_signature_accepted(
                binding_verification_key(self.authorization.sigs().bsk()@),
                sighash@,
                bundle.authorization.sigs().binding_signature()@,
            ),
            binding_signature_drawn(
                *old(rng),
                self.authorization.sigs().bsk()@,
                sighash@,
                bundle.authorization.sigs().binding_signature(),
                *final(rng),
            ),
            keys_match(self) ==> signatures_valid(bundle),
    {
        let ghost spends = self.shielded_spends@;
        let mut shielded_spends: Vec<SpendDescription<InProgress<P, PartiallyAuthorized>>> =
            Vec::new();
        for d in it: self.shielded_spends
            invariant
                it.seq() == spends,
                shielded_spends@.len() == it.index(),
                forall|i: int|
                    0 <= i < it.index() ==> same_spend(
                        spends[i],
                        #[trigger] shielded_spends@[i],
                    ) && shielded_spends@[i].spend_auth_sig == MaybeSigned::SigningMetadata(
                        spends[i].spend_auth_sig,
                    ),
        {
            shielded_spends.push(
                SpendDescription {
                    cv: d.cv,
                    anchor: d.anchor,
                    nullifier: d.nullifier,
                    rk: d.rk,
                    zkproof: d.zkproof,
                    spend_auth_sig: MaybeSigned::SigningMetadata(d.spend_auth_sig),
                },
            );
        }
        let binding_signature = self.authorization.sigs.bsk.sign(rng, &sighash);
        Bundle {
            shielded_spends,
            shielded_outputs: self.shielded_outputs,
            value_balance: self.value_balance,
            authorization: InProgress {
                sigs: PartiallyAuthorized { binding_signature, sighash },
                proof_state: PhantomData,
            },
        }
    }
}

/// The key is the one that this spend can be signed with.
pub open spec fn signable(parts: SigningParts, ask: nat) -> bool {
    parts.ak()@ == spend_verification_key(ask)
}

/// The spend is not signed yet, and the key is the one that it can be signed with.
pub open spec fn waits_for(maybe: MaybeSigned, ask: nat) -> bool {
    maybe matches MaybeSigned::SigningMetadata(parts) && signable(parts, ask)
}

/// What signing with a key makes of the state of a signature: a spend that waits for
/// this key is signed, and nothing happens to any other.
pub open spec fn signed_with(
    before: MaybeSigned,
    sighash: Seq<u8>,
    ask: nat,
    after: MaybeSigned,
) -> bool {
    match before {
        MaybeSigned::SigningMetadata(parts) if signable(parts, ask) => after matches
            MaybeSigned::Signature(signature) && accepted_for(parts, sighash, signature),
        _ => after == before,
    }
}

/// The key signs the spends that wait for it, in order. The generator goes through
/// `states`, from `before` to `after`: it is used for each of these signatures in its turn
/// and for nothing else.
pub open spec fn signed_through(
    before: StdRng,
    states: Seq<StdRng>,
    maybes: Seq<MaybeSigned>,
    sighash: Seq<u8>,
    ask: nat,
    signed: Seq<MaybeSigned>,
    after: StdRng,
) -> bool {
    &&& states.len() == maybes.len() + 1
    &&& states[0] == before
    &&& states.last() == after
    &&& signed.len() == maybes.len()
    &&& forall|i: int|
        0 <= i < maybes.len() ==> signed_next(
            states[i],
            #[trigger] maybes[i],
            sighash,
            ask,
            signed[i],
            states[i + 1],
        )
}

/// The key signs this spend with a generator in the state `before`, which is in the state
/// `after` then; or the spend does not wait for the key, and nothing happens.
pub open spec fn signed_next(
    before: StdRng,
    maybe: MaybeSigned,
    sighash: Seq<u8>,
    ask: nat,
    signed: MaybeSigned,
    after: StdRng,
) -> bool {
    match maybe {
        MaybeSigned::SigningMetadata(parts) if signable(parts, ask) => signed matches
            MaybeSigned::Signature(signature) && spend_signature_drawn(
            before,
            (ask + parts.alpha()@) % scalar_order(),
            sighash,
            signature,
            after,
        ),
        _ => signed == maybe && after == before,
    }
}

/// The key signs the spends that wait for it, in order, with a generator that is in the
/// state `before` at first and in the state `after` then.
pub open spec fn signatures_drawn(
    before: StdRng,
    maybes: Seq<MaybeSigned>,
    sighash: Seq<u8>,
    ask: nat,
    signed: Seq<MaybeSigned>,
    after: StdRng,
) -> bool {
    exists|states: Seq<StdRng>| #[trigger]
        signed_through(before, states, maybes, sighash, ask, signed, after)
}

/// The signature is valid for a spend with this verification key: by its signing parts as
/// long as it waits for a signature, and by the key itself once it has one.
pub open spec fn applies_to(
    rk: Seq<u8>,
    maybe: MaybeSigned,
    sighash: Seq<u8>,
    signature: Signature<SpendAuth>,
) -> bool {
    match maybe {
        MaybeSigned::SigningMetadata(parts) => accepted_for(parts, sighash, signature),
        MaybeSigned::Signature(_) => spend_signature_accepted(rk, sighash, signature@),
    }
}

/// The states of the signatures once `signature` stands wherever it is valid.
pub open spec fn filled_in(
    rks: Seq<Seq<u8>>,
    maybes: Seq<MaybeSigned>,
    sighash: Seq<u8>,
    signature: Signature<SpendAuth>,
) -> Seq<MaybeSigned> {
    Seq::new(
        maybes.len(),
        |i: int|
            if applies_to(rks[i], maybes[i], sighash, signature) {
                MaybeSigned::Signature(signature)
            } else {
                maybes[i]
            },
    )
}

/// The states of the signatures once `signature` is appended. It must be valid for one
/// spend and for no other.
pub open spec fn appended(
    rks: Seq<Seq<u8>>,
    maybes: Seq<MaybeSigned>,
    sighash: Seq<u8>,
    signature: Signature<SpendAuth>,
) -> Result<Seq<MaybeSigned>, Error> {
    if forall|i: int|
        0 <= i < maybes.len() ==> !applies_to(rks[i], #[trigger] maybes[i], sighash, signature) {
        Err(Error::InvalidExternalSignature)
    } else if exists|i: int, j: int|
        0 <= i < j < maybes.len() && applies_to(rks[i], #[trigger] maybes[i], sighash, signature)
            && applies_to(rks[j], #[trigger] maybes[j], sighash, signature) {
        Err(Error::DuplicateSignature)
    } else {
        Ok(filled_in(rks, maybes, sighash, signature))
    }
}

/// The states of the signatures once these are appended, one after the other.
pub open spec fn all_appended(
    rks: Seq<Seq<u8>>,
    maybes: Seq<MaybeSigned>,
    sighash: Seq<u8>,
    signatures: Seq<Signature<SpendAuth>>,
) -> Result<Seq<MaybeSigned>, Error>
    decreases signatures.len(),
{
    if signatures.len() == 0 {
        Ok(maybes)
    } else {
        match appended(rks, maybes, sighash, signatures.first()) {
            Ok(next) => all_appended(rks, next, sighash, signatures.drop_first()),
            Err(error) => Err(error),
        }
    }
}

/// The signature stands in the list at this index.
pub open spec fn is_listed(
    signatures: Seq<Signature<SpendAuth>>,
    index: int,
    signature: Signature<SpendAuth>,
) -> bool {
    0 <= index < signatures.len() && signatures[index] == signature
}

impl<P: InProgressProofs, V> Bundle<InProgress<P, PartiallyAuthorized>, V> {
    /// Signs this bundle with the given spend authorizing key.
    ///
    /// This will apply signatures for all notes controlled by this spending key.
    pub fn sign(self, rng: &mut StdRng, ask: &SpendAuthorizingKey) -> (bundle: Self)
        ensures
            same_effects(self, bundle),
            bundle.authorization == self.authorization,
            forall|i: int|
                0 <= i < self.shielded_spends@.len() ==> signed_with(
                    self.shielded_spends@[i].spend_auth_sig,
                    self.authorization.sigs().sighash(),
                    ask@,
                    (#[trigger] bundle.shielded_spends@[i]).spend_auth_sig,
                ),
            bundle.shielded_spends@.len() == self.shielded_spends@.len(),
            forall|i: int|
                0 <= i < self.shielded_spends@.len() ==> (#[trigger] bundle.shielded_spends@[i]).cv
                    == self.shielded_spends@[i].cv && bundle.shielded_spends@[i].anchor
                    == self.shielded_spends@[i].anchor && bundle.shielded_spends@[i].nullifier
                    == self.shielded_spends@[i].nullifier && bundle.shielded_spends@[i].rk
                    == self.shielded_spends@[i].rk && bundle.shielded_spends@[i].zkproof
                    == self.shielded_spends@[i].zkproof,
            bundle.shielded_outputs == self.shielded_outputs,
            bundle.value_balance == self.value_balance,
            forall|i: int|
                0 <= i < self.shielded_spends@.len() ==> match (
                #[trigger] self.shielded_spends@[i]).spend_auth_sig {
                    MaybeSigned::SigningMetadata(parts) => if parts.ak()@
                        == spend_verification_key(ask@) {
                        bundle.shielded_spends@[i].spend_auth_sig matches MaybeSigned::Signature(
                            signature,
                        ) && spend_signature_accepted(
                            randomized_key(parts.ak()@, parts.alpha()@),
                            self.authorization.sigs().sighash(),
                            signature@,
                        )
                    } else {
                        bundle.shielded_spends@[i].spend_auth_sig
                            == self.shielded_spends@[i].spend_auth_sig
                    },
                    MaybeSigned::Signature(_) => bundle.shielded_spends@[i].spend_auth_sig
                        == self.shielded_spends@[i].spend_auth_sig,
                },
            signatures_valid(self) ==> signatures_valid(bundle),
            (forall|i: int|
                0 <= i < self.shielded_spends@.len() ==> !waits_for(
                    (#[trigger] self.shielded_spends@[i]).spend_auth_sig,
                    ask@,
                )) ==> *final(rng) == *old(rng),
            signatures_drawn(
                *old(rng),
                spend_signatures(self),
                self.authorization.sigs().sighash(),
                ask@,
                spend_signatures(bundle),
                *final(rng),
            ),
    {
        let expected_ak = ask.validating_key();
        let sighash = self.authorization.sigs.sighash;
        let ghost spends = self.shielded_spends@;
        let ghost mut states: Seq<StdRng> = seq![*rng];
        let mut shielded_spends: Vec<SpendDescription<InProgress<P, PartiallyAuthorized>>> =
            Vec::new();
        for d in it: self.shielded_spends
            invariant
                it.seq() == spends,
                expected_ak@ == spend_verification_key(ask@),
                (forall|i: int|
                    0 <= i < it.index() ==> !waits_for((#[trigger] spends[i]).spend_auth_sig, ask@))
                    ==> *rng == *old(rng),
                states.len() == it.index() + 1,
                states[0] == *old(rng),
                states.last() == *rng,
                forall|i: int|
                    0 <= i < it.index() ==> signed_next(
                        states[i],
                        spends[i].spend_auth_sig,
                        sighash@,
                        ask@,
                        (#[trigger] shielded_spends@[i]).spend_auth_sig,
                        states[i + 1],
                    ),
                shielded_spends@.len() == it.index(),
                forall|i: int|
                    0 <= i < it.index() ==> same_spend(
                        spends[i],
                        #[trigger] shielded_spends@[i],
                    ) && signed_with(
                        spends[i].spend_auth_sig,
                        sighash@,
                        ask@,
                        shielded_spends@[i].spend_auth_sig,
                    ),
        {
            let spend_auth_sig = match d.spend_auth_sig {
                MaybeSigned::SigningMetadata(parts) => {
                    if parts.ak == expected_ak {
                        MaybeSigned::Signature(ask.randomize(&parts.alpha).sign(rng, &sighash))
                    } else {
                        MaybeSigned::SigningMetadata(parts)
                    }
                },
                s => s,
            };
            shielded_spends.push(
                SpendDescription {
                    cv: d.cv,
                    anchor: d.anchor,
                    nullifier: d.nullifier,
                    rk: d.rk,
                    zkproof: d.zkproof,
                    spend_auth_sig,
                },
            );
            proof {
                states = states.push(*rng);
            }
        }
        let bundle = Bundle {
            shielded_spends,
            shielded_outputs: self.shielded_outputs,
            value_balance: self.value_balance,
            authorization: self.authorization,
        };
        proof {
            let maybes = spend_signatures(self);
            let signed = spend_signatures(bundle);
            assert forall|i: int| 0 <= i < maybes.len() implies signed_next(
                states[i],
                #[trigger] maybes[i],
                sighash@,
                ask@,
                signed[i],
                states[i + 1],
            ) by {
                assert(signed[i] == bundle.shielded_spends@[i].spend_auth_sig);
            }
            assert(signed_through(*old(rng), states, maybes, sighash@, ask@, signed, *rng));
        }
        bundle
    }

    /// Appends an externally computed signature to the one input for which it is valid.
    fn append_signature(self, signature: &Signature<SpendAuth>) -> (bundle: Result<Self, Error>)
        ensures
            match appended(
                spend_keys(self),
                spend_signatures(self),
                self.authorization.sigs().sighash(),
                *signature,
            ) {
                Ok(signatures) => {
                    &&& bundle matches Ok(bundle)
                    &&& same_effects(self, bundle)
                    &&& bundle.authorization == self.authorization
                    &&& spend_signatures(bundle) == signatures
                },
                Err(error) => bundle matches Err(e) && e == error,
            },
            signatures_valid(self) ==> (bundle matches Ok(bundle) ==> signatures_valid(bundle)),
    {
        let sighash = self.authorization.sigs.sighash;
        let ghost rks = spend_keys(self);
        let ghost maybes = spend_signatures(self);
        let ghost spends = self.shielded_spends@;
        assert(self.shielded_spends.len() == spends.len());
        let mut signature_valid_for: usize = 0;
        let mut shielded_spends: Vec<SpendDescription<InProgress<P, PartiallyAuthorized>>> =
            Vec::new();
        for d in it: self.shielded_spends
            invariant
                it.seq() == spends,
                spends == self.shielded_spends@,
                rks == spend_keys(self),
                maybes == spend_signatures(self),
                shielded_spends@.len() == it.index(),
                forall|i: int|
                    0 <= i < it.index() ==> same_spend(
                        spends[i],
                        #[trigger] shielded_spends@[i],
                    ) && shielded_spends@[i].spend_auth_sig == filled_in(
                        rks,
                        maybes,
                        sighash@,
                        *signature,
                    )[i],
                signature_valid_for <= it.index() <= spends.len() <= usize::MAX,
                signature_valid_for == 0 <==> forall|i: int|
                    0 <= i < it.index() ==> !applies_to(
                        rks[i],
                        #[trigger] maybes[i],
                        sighash@,
                        *signature,
                    ),
                signature_valid_for > 1 <==> exists|i: int, j: int|
                    0 <= i < j < it.index() && applies_to(
                        rks[i],
                        #[trigger] maybes[i],
                        sighash@,
                        *signature,
                    ) && applies_to(rks[j], #[trigger] maybes[j], sighash@, *signature),
        {
            assert(maybes[it.index() as int] == d.spend_auth_sig);
            let valid = match d.spend_auth_sig {
                MaybeSigned::SigningMetadata(parts) => {
                    parts.ak.randomize(&parts.alpha).verify(&sighash, signature)
                },
                MaybeSigned::Signature(_) => d.rk.verify(&sighash, signature),
            };
            let spend_auth_sig = if valid {
                signature_valid_for = signature_valid_for + 1;
                MaybeSigned::Signature(*signature)
            } else {
                // Signature isn't for this input.
                d.spend_auth_sig
            };
            shielded_spends.push(
                SpendDescription {
                    cv: d.cv,
                    anchor: d.anchor,
                    nullifier: d.nullifier,
                    rk: d.rk,
                    zkproof: d.zkproof,
                    spend_auth_sig,
                },
            );
        }
        let bundle = Bundle {
            shielded_spends,
            shielded_outputs: self.shielded_outputs,
            value_balance: self.value_balance,
            authorization: self.authorization,
        };
        assert(spend_signatures(bundle) =~= filled_in(rks, maybes, sighash@, *signature));
        match signature_valid_for {
            0 => Err(Error::InvalidExternalSignature),
            1 => Ok(bundle),
            _ => Err(Error::DuplicateSignature),
        }
    }

    /// Appends externally computed signatures.
    ///
    /// Each signature will be applied to the one input for which it is valid. An error
    /// will be returned if the signature is not valid for any inputs, or if it is valid
    /// for more than one input.
    pub fn append_signatures(self, signatures: &[Signature<SpendAuth>]) -> (bundle: Result<
        Self,
        Error,
    >)
        ensures
            match all_appended(
                spend_keys(self),
                spend_signatures(self),
                self.authorization.sigs().sighash(),
                signatures@,
            ) {
                Ok(maybes) => {
                    &&& bundle matches Ok(bundle)
                    &&& same_effects(self, bundle)
                    &&& bundle.authorization == self.authorization
                    &&& spend_signatures(bundle) == maybes
                },
                Err(error) => bundle matches Err(e) && e == error,
            },
            signatures_valid(self) ==> (bundle matches Ok(bundle) ==> signatures_valid(bundle)),
            bundle matches Ok(bundle) ==> {
                &&& bundle.shielded_spends@.len() == self.shielded_spends@.len()
                &&& forall|i: int|
                    0 <= i < self.shielded_spends@.len() ==> (#[trigger] bundle.shielded_spends@[i]).cv
                        == self.shielded_spends@[i].cv && bundle.shielded_spends@[i].anchor
                        == self.shielded_spends@[i].anchor && bundle.shielded_spends@[i].nullifier
                        == self.shielded_spends@[i].nullifier && bundle.shielded_spends@[i].rk
                        == self.shielded_spends@[i].rk && bundle.shielded_spends@[i].zkproof
                        == self.shielded_spends@[i].zkproof
                &&& bundle.shielded_outputs == self.shielded_outputs
                &&& bundle.value_balance == self.value_balance
                &&& bundle.authorization == self.authorization
            },
            bundle is Ok ==> forall|k: int, signature: Signature<SpendAuth>| #[trigger]
                is_listed(signatures@, k, signature) ==> exists|i: int|
                    0 <= i < self.shielded_spends@.len() && (spend_signature_accepted(
                        (#[trigger] self.shielded_spends@[i]).rk@,
                        self.authorization.sigs().sighash(),
                        signature@,
                    ) || (
                    self.shielded_spends@[i].spend_auth_sig matches MaybeSigned::SigningMetadata(
                        parts,
                    ) && spend_signature_accepted(
                        randomized_key(parts.ak()@, parts.alpha()@),
                        self.authorization.sigs().sighash(),
                        signature@,
                    ))),
            bundle matches Err(error) ==> error == Error::InvalidExternalSignature || error
                == Error::DuplicateSignature,
    {
        let ghost sighash = self.authorization.sigs().sighash();
        let mut bundle = self;
        let mut i: usize = 0;
        assert(signatures@.skip(0) =~= signatures@);
        while i < signatures.len()
            invariant
                i <= signatures@.len(),
                sighash == self.authorization.sigs().sighash(),
                same_effects(self, bundle),
                bundle.authorization == self.authorization,
                signatures_valid(self) ==> signatures_valid(bundle),
                spend_keys(bundle) == spend_keys(self),
                all_appended(spend_keys(self), spend_signatures(self), sighash, signatures@)
                    == all_appended(
                    spend_keys(bundle),
                    spend_signatures(bundle),
                    sighash,
                    signatures@.skip(i as int),
                ),
            decreases signatures.len() - i,
        {
            assert(signatures@.skip(i as int).first() == signatures@[i as int]);
            assert(signatures@.skip(i as int).drop_first() =~= signatures@.skip(i + 1));
            match bundle.append_signature(&signatures[i]) {
                Ok(next) => {
                    assert(spend_keys(next) =~= spend_keys(bundle));
                    bundle = next;
                },
                Err(error) => {
                    return Err(error);
                },
            }
            i = i + 1;
        }
        proof {
            let rks = spend_keys(self);
            let maybes = spend_signatures(self);
            assert forall|k: int, signature: Signature<SpendAuth>| #[trigger]
                is_listed(signatures@, k, signature) implies exists|i: int|
                0 <= i < self.shielded_spends@.len() && (spend_signature_accepted(
                    (#[trigger] self.shielded_spends@[i]).rk@,
                    sighash,
                    signature@,
                ) || (self.shielded_spends@[i].spend_auth_sig matches MaybeSigned::SigningMetadata(
                    parts,
                ) && spend_signature_accepted(
                    randomized_key(parts.ak()@, parts.alpha()@),
                    sighash,
                    signature@,
                ))) by {
                let i = law_every_signature_is_valid(
                    rks,
                    maybes,
                    sighash,
                    signatures@,
                    spend_signatures(bundle),
                    k,
                );
                assert(rks[i] == self.shielded_spends@[i].rk@);
                assert(maybes[i] == self.shielded_spends@[i].spend_auth_sig);
            }
        }
        Ok(bundle)
    }
}

/// The bundle has a signature for every spend.
pub open spec fn fully_signed<P: InProgressProofs, V>(
    bundle: Bundle<InProgress<P, PartiallyAuthorized>, V>,
) -> bool {
    forall|i: int|
        0 <= i < bundle.shielded_spends@.len() ==> (
        #[trigger] bundle.shielded_spends@[i]).spend_auth_sig is Signature
}

/// The bundle as it was, with its signatures in place.
pub open spec fn finalized<V>(
    before: Bundle<InProgress<Proven, PartiallyAuthorized>, V>,
    after: Bundle<Authorized, V>,
) -> bool {
    &&& same_effects(before, after)
    &&& forall|i: int|
        0 <= i < before.shielded_spends@.len() ==> before.shielded_spends@[i].spend_auth_sig
            == MaybeSigned::Signature((#[trigger] after.shielded_spends@[i]).spend_auth_sig)
    &&& after.authorization.binding_sig == before.authorization.sigs().binding_signature()
}

impl<V> Bundle<InProgress<Proven, PartiallyAuthorized>, V> {
    /// Finalizes this bundle, enabling it to be included in a transaction.
    ///
    /// Returns an error if any signatures are missing.
    pub fn finalize(self) -> (bundle: Result<Bundle<Authorized, V>, Error>)
        ensures
            if fully_signed(self) {
                bundle matches Ok(bundle) && finalized(self, bundle)
            } else {
                bundle matches Err(error) && error == Error::MissingSignatures
            },
            signatures_valid(self) ==> (bundle matches Ok(bundle) ==> spends_authorized(
                bundle,
                self.authorization.sigs().sighash(),
            )),
            bundle is Ok <==> forall|i: int|
                0 <= i < self.shielded_spends@.len() ==> (
                #[trigger] self.shielded_spends@[i]).spend_auth_sig is Signature,
            bundle matches Ok(bundle) ==> {
                &&& bundle.shielded_spends@.len() == self.shielded_spends@.len()
                &&& forall|i: int|
                    0 <= i < self.shielded_spends@.len() ==> (#[trigger] bundle.shielded_spends@[i]).cv
                        == self.shielded_spends@[i].cv && bundle.shielded_spends@[i].anchor
                        == self.shielded_spends@[i].anchor && bundle.shielded_spends@[i].nullifier
                        == self.shielded_spends@[i].nullifier && bundle.shielded_spends@[i].rk
                        == self.shielded_spends@[i].rk && bundle.shielded_spends@[i].zkproof
                        == self.shielded_spends@[i].zkproof
                &&& bundle.shielded_outputs == self.shielded_outputs
                &&& bundle.value_balance == self.value_balance
                &&& forall|i: int|
                    0 <= i < self.shielded_spends@.len() ==> self.shielded_spends@[i].spend_auth_sig
                        == MaybeSigned::Signature(
                        (#[trigger] bundle.shielded_spends@[i]).spend_auth_sig,
                    )
                &&& bundle.authorization.binding_sig
                    == self.authorization.sigs().binding_signature()
            },
    {
        let ghost spends = self.shielded_spends@;
        let mut shielded_spends: Vec<SpendDescription<Authorized>> = Vec::new();
        for d in it: self.shielded_spends
            invariant
                it.seq() == spends,
                spends == self.shielded_spends@,
                shielded_spends@.len() == it.index(),
                forall|i: int|
                    0 <= i < it.index() ==> same_spend(
                        spends[i],
                        #[trigger] shielded_spends@[i],
                    ) && spends[i].spend_auth_sig == MaybeSigned::Signature(
                        shielded_spends@[i].spend_auth_sig,
                    ),
        {
            match d.spend_auth_sig.finalize() {
                Ok(spend_auth_sig) => {
                    shielded_spends.push(
                        SpendDescription {
                            cv: d.cv,
                            anchor: d.anchor,
                            nullifier: d.nullifier,
                            rk: d.rk,
                            zkproof: d.zkproof,
                            spend_auth_sig,
                        },
                    );
                },
                Err(error) => {
                    assert(self.shielded_spends@[it.index() as int] == d);
                    return Err(error);
                },
            }
        }
        assert forall|i: int| 0 <= i < spends.len() implies (
        #[trigger] spends[i]).spend_auth_sig is Signature by {
            assert(same_spend(spends[i], shielded_spends@[i]));
        }
        Ok(
            Bundle {
                shielded_spends,
                shielded_outputs: self.shielded_outputs,
                value_balance: self.value_balance,
                authorization: Authorized { binding_sig: self.authorization.sigs.binding_signature },
            },
        )
    }
}

impl<V> Bundle<Authorized, V> {
    /// Whether the key that the commitments and this value balance give accepts the binding
    /// signature of the bundle.
    pub fn binding_signature_verifies(&self, value_balance: i64, sighash: &[u8; 32]) -> (verifies:
        bool)
        ensures
            verifies == binding_signature_accepted(
                bvk_of(
                    spend_commitments(self.shielded_spends@),
                    output_commitments(self.shielded_outputs@),
                    value_balance as int,
                ),
                sighash@,
                self.authorization.binding_sig@,
            ),
    {
        let bvk = compute_bvk::<Authorized>(
            &self.shielded_spends,
            &self.shielded_outputs,
            value_balance,
        );
        bvk.verify(sighash, &self.authorization.binding_sig)
    }
}

/// One of the keys can sign the spend.
pub open spec fn signable_by_some(parts: SigningParts, keys: Seq<SpendAuthorizingKey>) -> bool {
    exists|k: int| 0 <= k < keys.len() && signable(parts, #[trigger] keys[k]@)
}

/// The bundle as it was, with a signature over `sighash` for every spend, and with a
/// binding signature over it.
pub open spec fn signatures_applied<V>(
    before: Bundle<InProgress<Proven, Unsigned>, V>,
    sighash: Seq<u8>,
    after: Bundle<Authorized, V>,
) -> bool {
    &&& same_effects(before, after)
    &&& forall|i: int|
        0 <= i < before.shielded_spends@.len() ==> accepted_for(
            before.shielded_spends@[i].spend_auth_sig,
            sighash,
            (#[trigger] after.shielded_spends@[i]).spend_auth_sig,
        )
    &&& binding_signature_accepted(
        binding_verification_key(before.authorization.sigs().bsk()@),
        sighash,
        after.authorization.binding_sig@,
    )
}

/// What signing with these keys makes of a spend that is not signed yet.
pub open spec fn signed_with_all(
    parts: SigningParts,
    sighash: Seq<u8>,
    keys: Seq<SpendAuthorizingKey>,
    after: MaybeSigned,
) -> bool {
    if signable_by_some(parts, keys) {
        after matches MaybeSigned::Signature(signature) && accepted_for(parts, sighash, signature)
    } else {
        after == MaybeSigned::SigningMetadata(parts)
    }
}

/// Signing with one key more.
proof fn lemma_one_key_more(
    parts: SigningParts,
    sighash: Seq<u8>,
    keys: Seq<SpendAuthorizingKey>,
    ask: SpendAuthorizingKey,
    earlier: MaybeSigned,
    later: MaybeSigned,
)
    requires
        signed_with_all(parts, sighash, keys, earlier),
        signed_with(earlier, sighash, ask@, later),
    ensures
        signed_with_all(parts, sighash, keys.push(ask), later),
{
    let more = keys.push(ask);
    if signable_by_some(parts, keys) {
        let j = choose|j: int| 0 <= j < keys.len() && signable(parts, #[trigger] keys[j]@);
        assert(signable(parts, more[j]@));
    }
    if signable_by_some(parts, more) {
        let j = choose|j: int| 0 <= j < more.len() && signable(parts, #[trigger] more[j]@);
        if j < keys.len() {
            assert(signable(parts, keys[j]@));
        }
    }
    if signable(parts, ask@) {
        assert(signable(parts, more[keys.len() as int]@));
    }
}

/// This key is the one of that index.
pub open spec fn is_key(
    keys: Seq<SpendAuthorizingKey>,
    index: int,
    ask: SpendAuthorizingKey,
) -> bool {
    0 <= index < keys.len() && ask == keys[index]
}

impl<V> Bundle<InProgress<Proven, Unsigned>, V> {
    /// Applies signatures to this bundle, in order to authorize it.
    ///
    /// This is a helper method that wraps [`Bundle::prepare`], [`Bundle::sign`], and
    /// [`Bundle::finalize`]: the bundle is prepared, signed with each of the keys in turn,
    /// and finalized, with the one generator.
    pub fn apply_signatures(
        self,
        rng: &mut StdRng,
        sighash: [u8; 32],
        signing_keys: &[SpendAuthorizingKey],
    ) -> (bundle: Result<Bundle<Authorized, V>, Error>)
        ensures
            if forall|i: int|
                0 <= i < self.shielded_spends@.len() ==> signable_by_some(
                    (#[trigger] self.shielded_spends@[i]).spend_auth_sig,
                    signing_keys@,
                ) {
                bundle matches Ok(bundle) && signatures_applied(self, sighash@, bundle)
            } else {
                bundle matches Err(error) && error == Error::MissingSignatures
            },
            keys_match(self) ==> (bundle matches Ok(bundle) ==> spends_authorized(bundle, sighash@)),
            bundle matches Ok(bundle) ==> {
                &&& bundle.shielded_spends@.len() == self.shielded_spends@.len()
                &&& forall|i: int|
                    0 <= i < self.shielded_spends@.len() ==> (#[trigger] bundle.shielded_spends@[i]).cv
                        == self.shielded_spends@[i].cv && bundle.shielded_spends@[i].anchor
                        == self.shielded_spends@[i].anchor && bundle.shielded_spends@[i].nullifier
                        == self.shielded_spends@[i].nullifier && bundle.shielded_spends@[i].rk
                        == self.shielded_spends@[i].rk && bundle.shielded_spends@[i].zkproof
                        == self.shielded_spends@[i].zkproof
                &&& bundle.shielded_outputs == self.shielded_outputs
                &&& bundle.value_balance == self.value_balance
                &&& forall|i: int|
                    0 <= i < self.shielded_spends@.len() ==> spend_signature_accepted(
                        randomized_key(
                            self.shielded_spends@[i].spend_auth_sig.ak()@,
                            self.shielded_spends@[i].spend_auth_sig.alpha()@,
                        ),
                        sighash@,
                        (#[trigger] bundle.shielded_spends@[i]).spend_auth_sig@,
                    )
                &&& binding_signature_accepted(
                    binding_verification_key(self.authorization.sigs().bsk()@),
                    sighash@,
                    bundle.authorization.binding_sig@,
                )
            },
            exists|
                partials: Seq<Bundle<InProgress<Proven, PartiallyAuthorized>, V>>,
                states: Seq<StdRng>,
            |
                #![trigger partials.len(), states.len()]
                {
                    &&& partials.len() == signing_keys@.len() + 1
                    &&& states.len() == signing_keys@.len() + 1
                    &&& exists|prepared_with: &mut StdRng|
                        *prepared_with == *old(rng) && *final(prepared_with) == states[0]
                            && #[trigger] call_ensures(
                            Bundle::<InProgress<Proven, Unsigned>, V>::prepare,
                            (self, prepared_with, sighash),
                            partials[0],
                        )
                    &&& forall|k: int, ask: SpendAuthorizingKey| #[trigger]
                        is_key(signing_keys@, k, ask) ==> exists|signed_with: &mut StdRng|
                            *signed_with == states[k] && *final(signed_with) == states[k + 1]
                                && #[trigger] call_ensures(
                                Bundle::<InProgress<Proven, PartiallyAuthorized>, V>::sign,
                                (partials[k], signed_with, &ask),
                                partials[k + 1],
                            )
                    &&& *final(rng) == states.last()
                    &&& call_ensures(
                        Bundle::<InProgress<Proven, PartiallyAuthorized>, V>::finalize,
                        (partials.last(),),
                        bundle,
                    )
                },
    {
        let mut partial = self.prepare(rng, sighash);
        let ghost prepared = partial.authorization;
        let ghost mut partials: Seq<Bundle<InProgress<Proven, PartiallyAuthorized>, V>> = seq![
            partial,
        ];
        let ghost mut states: Seq<StdRng> = seq![*rng];
        let ghost first = partial;
        let ghost first_state = *rng;
        let mut k: usize = 0;
        while k < signing_keys.len()
            invariant
                k <= signing_keys@.len(),
                partial.authorization == prepared,
                prepared.sigs().sighash() == sighash@,
                same_effects(self, partial),
                forall|i: int|
                    0 <= i < self.shielded_spends@.len() ==> signed_with_all(
                        self.shielded_spends@[i].spend_auth_sig,
                        sighash@,
                        signing_keys@.take(k as int),
                        (#[trigger] partial.shielded_spends@[i]).spend_auth_sig,
                    ),
                partials.len() == k + 1,
                partials.last() == partial,
                states.len() == k + 1,
                states.last() == *rng,
                partials[0] == first,
                states[0] == first_state,
                exists|prepared_with: &mut StdRng|
                    *prepared_with == *old(rng) && *final(prepared_with) == first_state
                        && #[trigger] call_ensures(
                        Bundle::<InProgress<Proven, Unsigned>, V>::prepare,
                        (self, prepared_with, sighash),
                        first,
                    ),
                forall|j: int, ask: SpendAuthorizingKey| #[trigger]
                    is_key(signing_keys@.take(k as int), j, ask) ==> exists|
                        signed_with: &mut StdRng,
                    |
                        *signed_with == states[j] && *final(signed_with) == states[j + 1]
                            && #[trigger] call_ensures(
                            Bundle::<InProgress<Proven, PartiallyAuthorized>, V>::sign,
                            (partials[j], signed_with, &ask),
                            partials[j + 1],
                        ),
            decreases signing_keys.len() - k,
        {
            let ghost earlier = partial;
            let ghost before = *rng;
            partial = partial.sign(rng, &signing_keys[k]);
            proof {
                let fewer = signing_keys@.take(k as int);
                let more = signing_keys@.take(k + 1);
                assert(more =~= fewer.push(signing_keys@[k as int]));
                assert forall|i: int| 0 <= i < self.shielded_spends@.len() implies same_spend(
                    self.shielded_spends@[i],
                    #[trigger] partial.shielded_spends@[i],
                ) && signed_with_all(
                    self.shielded_spends@[i].spend_auth_sig,
                    sighash@,
                    more,
                    partial.shielded_spends@[i].spend_auth_sig,
                ) by {
                    assert(same_spend(earlier.shielded_spends@[i], partial.shielded_spends@[i]));
                    lemma_one_key_more(
                        self.shielded_spends@[i].spend_auth_sig,
                        sighash@,
                        fewer,
                        signing_keys@[k as int],
                        earlier.shielded_spends@[i].spend_auth_sig,
                        partial.shielded_spends@[i].spend_auth_sig,
                    );
                }
                let earlier_partials = partials;
                let earlier_states = states;
                partials = partials.push(partial);
                states = states.push(*rng);
                assert forall|j: int, ask: SpendAuthorizingKey| #[trigger]
                    is_key(more, j, ask) implies exists|signed_with: &mut StdRng|
                    *signed_with == states[j] && *final(signed_with) == states[j + 1]
                        && #[trigger] call_ensures(
                        Bundle::<InProgress<Proven, PartiallyAuthorized>, V>::sign,
                        (partials[j], signed_with, &ask),
                        partials[j + 1],
                    ) by {
                    if j < k {
                        assert(is_key(fewer, j, ask));
                        let signed_with = choose|signed_with: &mut StdRng|
                            *signed_with == earlier_states[j] && *final(signed_with)
                                == earlier_states[j + 1] && #[trigger] call_ensures(
                                Bundle::<InProgress<Proven, PartiallyAuthorized>, V>::sign,
                                (earlier_partials[j], signed_with, &ask),
                                earlier_partials[j + 1],
                            );
                        assert(call_ensures(
                            Bundle::<InProgress<Proven, PartiallyAuthorized>, V>::sign,
                            (partials[j], signed_with, &ask),
                            partials[j + 1],
                        ));
                    } else {
                        let signed_with = choose|signed_with: &mut StdRng|
                            *signed_with == before && *final(signed_with) == *rng
                                && #[trigger] call_ensures(
                                Bundle::<InProgress<Proven, PartiallyAuthorized>, V>::sign,
                                (earlier, signed_with, &signing_keys@[k as int]),
                                partial,
                            );
                        assert(call_ensures(
                            Bundle::<InProgress<Proven, PartiallyAuthorized>, V>::sign,
                            (partials[j], signed_with, &ask),
                            partials[j + 1],
                        ));
                    }
                }
            }
            k = k + 1;
        }
        assert(signing_keys@.take(k as int) =~= signing_keys@);
        assert forall|i: int| 0 <= i < self.shielded_spends@.len() implies signable_by_some(
            (#[trigger] self.shielded_spends@[i]).spend_auth_sig,
            signing_keys@,
        ) == partial.shielded_spends@[i].spend_auth_sig is Signature by {
            assert(same_spend(self.shielded_spends@[i], partial.shielded_spends@[i]));
        }
        assert(fully_signed(partial) ==> forall|i: int|
            0 <= i < self.shielded_spends@.len() ==> signable_by_some(
                (#[trigger] self.shielded_spends@[i]).spend_auth_sig,
                signing_keys@,
            ));
        proof {
            let prepared_with = choose|prepared_with: &mut StdRng|
                *prepared_with == *old(rng) && *final(prepared_with) == first_state
                    && #[trigger] call_ensures(
                    Bundle::<InProgress<Proven, Unsigned>, V>::prepare,
                    (self, prepared_with, sighash),
                    first,
                );
            assert(call_ensures(
                Bundle::<InProgress<Proven, Unsigned>, V>::prepare,
                (self, prepared_with, sighash),
                partials[0],
            ));
        }
        partial.finalize()
    }
}

} // verus!
