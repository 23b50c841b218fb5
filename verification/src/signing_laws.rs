//! What holds of signing a bundle, said of the keys and signatures that go in and of what the
//! keys of the bundle accept.

use crate::bundle::{Authorized, Bundle};
use crate::error::Error;
use crate::in_progress::{
    InProgress, InProgressProofs, MaybeSigned, PartiallyAuthorized, Proven, SigningParts, Unsigned,
};
use crate::keys::SpendAuthorizingKey;
use crate::scalar::scalar_order;
use crate::signature::{
    binding_signature_accepted, binding_verification_key, randomized_key,
    spend_signature_accepted, spend_signature_drawn, spend_verification_key, Signature, SpendAuth,
};
use crate::signing::{
    all_appended, appended, applies_to, finalized, fully_signed, prepared, same_effects, signable,
    signable_by_some, signatures_applied, signatures_drawn, signed_next, signed_through,
    signed_with, spend_keys, spend_signatures, spends_authorized, waits_for,
};
use rand::rngs::StdRng;
use vstd::prelude::*;

verus! {

/// A prepared bundle is the bundle it was, in every field of every spend and output; every
/// spend waits for its signature; and the one signature there is binds the bundle to the
/// sighash.
pub proof fn law_preparing_signs_nothing_but_the_binding<P: InProgressProofs, V>(
    before: Bundle<InProgress<P, Unsigned>, V>,
    sighash: Seq<u8>,
    after: Bundle<InProgress<P, PartiallyAuthorized>, V>,
)
    requires
        prepared(before, sighash, after),
    ensures
        after.shielded_spends@.len() == before.shielded_spends@.len(),
        forall|i: int|
            0 <= i < before.shielded_spends@.len() ==> (#[trigger] after.shielded_spends@[i]).cv
                == before.shielded_spends@[i].cv && after.shielded_spends@[i].anchor
                == before.shielded_spends@[i].anchor && after.shielded_spends@[i].nullifier
                == before.shielded_spends@[i].nullifier && after.shielded_spends@[i].rk
                == before.shielded_spends@[i].rk && after.shielded_spends@[i].zkproof
                == before.shielded_spends@[i].zkproof && after.shielded_spends@[i].spend_auth_sig
                == MaybeSigned::SigningMetadata(before.shielded_spends@[i].spend_auth_sig),
        after.shielded_outputs == before.shielded_outputs,
        after.value_balance == before.value_balance,
        after.authorization.sigs().sighash() == sighash,
        binding_signature_accepted(
            binding_verification_key(before.authorization.sigs().bsk()@),
            sighash,
            after.authorization.sigs().binding_signature()@,
        ),
{
}

/// A key signs a spend exactly where the spend waits for a signature and the key's public half
/// is the one that it waits for. The signature is one that this public half accepts, randomized
/// as the spend is. Every other spend stays as it is.
pub proof fn law_key_signs_what_waits_for_it(
    before: MaybeSigned,
    sighash: Seq<u8>,
    ask: nat,
    after: MaybeSigned,
)
    requires
        signed_with(before, sighash, ask, after),
    ensures
        before is Signature ==> after == before,
        before matches MaybeSigned::SigningMetadata(parts) ==> if parts.ak()@
            == spend_verification_key(ask) {
            after matches MaybeSigned::Signature(signature) && spend_signature_accepted(
                randomized_key(spend_verification_key(ask), parts.alpha()@),
                sighash,
                signature@,
            )
        } else {
            after == before
        },
        waits_for(before, ask) <==> (before matches MaybeSigned::SigningMetadata(parts)
            && parts.ak()@ == spend_verification_key(ask)),
{
}

/// With the generator a key makes the signatures of the spends that wait for it, in order and
/// with its scalar randomized as each spend is, and nothing else. Returned is the generator
/// before each spend and after the last.
pub proof fn law_signatures_are_made_in_order(
    before: StdRng,
    maybes: Seq<MaybeSigned>,
    sighash: Seq<u8>,
    ask: nat,
    signed: Seq<MaybeSigned>,
    after: StdRng,
) -> (states: Seq<StdRng>)
    requires
        signatures_drawn(before, maybes, sighash, ask, signed, after),
    ensures
        signed.len() == maybes.len(),
        states.len() == maybes.len() + 1,
        states[0] == before,
        states[maybes.len() as int] == after,
        forall|i: int|
            0 <= i < maybes.len() ==> match #[trigger] maybes[i] {
                MaybeSigned::SigningMetadata(parts) => if parts.ak()@ == spend_verification_key(
                    ask,
                ) {
                    signed[i] matches MaybeSigned::Signature(signature) && spend_signature_drawn(
                        states[i],
                        (ask + parts.alpha()@) % scalar_order(),
                        sighash,
                        signature,
                        states[i + 1],
                    )
                } else {
                    signed[i] == maybes[i] && states[i + 1] == states[i]
                },
                MaybeSigned::Signature(_) => signed[i] == maybes[i] && states[i + 1] == states[i],
            },
{
    let states = choose|states: Seq<StdRng>| #[trigger]
        signed_through(before, states, maybes, sighash, ask, signed, after);
    assert forall|i: int| 0 <= i < maybes.len() implies signed_next(
        states[i],
        #[trigger] maybes[i],
        sighash,
        ask,
        signed[i],
        states[i + 1],
    ) by {}
    states
}

/// What appending a signature answers: that it is invalid, exactly where it is valid for no
/// spend; that it is one too many, exactly where it is valid for two; and else that it stands
/// at the one spend for which it is valid, with all others as they were. A spend that waits
/// judges by its own key, randomized; one that is signed by its verification key.
pub proof fn law_what_appending_answers(
    rks: Seq<Seq<u8>>,
    maybes: Seq<MaybeSigned>,
    sighash: Seq<u8>,
    signature: Signature<SpendAuth>,
)
    ensures
        appended(rks, maybes, sighash, signature) == Err::<Seq<MaybeSigned>, Error>(
            Error::InvalidExternalSignature,
        ) <==> forall|i: int|
            0 <= i < maybes.len() ==> match #[trigger] maybes[i] {
                MaybeSigned::SigningMetadata(parts) => !spend_signature_accepted(
                    randomized_key(parts.ak()@, parts.alpha()@),
                    sighash,
                    signature@,
                ),
                MaybeSigned::Signature(_) => !spend_signature_accepted(
                    rks[i],
                    sighash,
                    signature@,
                ),
            },
        appended(rks, maybes, sighash, signature) matches Err(error) ==> error
            == Error::InvalidExternalSignature || error == Error::DuplicateSignature,
        appended(rks, maybes, sighash, signature) == Err::<Seq<MaybeSigned>, Error>(
            Error::DuplicateSignature,
        ) <==> exists|i: int, j: int|
            0 <= i < j < maybes.len() && (match #[trigger] maybes[i] {
                MaybeSigned::SigningMetadata(parts) => spend_signature_accepted(
                    randomized_key(parts.ak()@, parts.alpha()@),
                    sighash,
                    signature@,
                ),
                MaybeSigned::Signature(_) => spend_signature_accepted(
                    rks[i],
                    sighash,
                    signature@,
                ),
            }) && (match #[trigger] maybes[j] {
                MaybeSigned::SigningMetadata(parts) => spend_signature_accepted(
                    randomized_key(parts.ak()@, parts.alpha()@),
                    sighash,
                    signature@,
                ),
                MaybeSigned::Signature(_) => spend_signature_accepted(
                    rks[j],
                    sighash,
                    signature@,
                ),
            }),
        appended(rks, maybes, sighash, signature) matches Ok(next) ==> exists|i: int|
            0 <= i < maybes.len() && (match #[trigger] maybes[i] {
                MaybeSigned::SigningMetadata(parts) => spend_signature_accepted(
                    randomized_key(parts.ak()@, parts.alpha()@),
                    sighash,
                    signature@,
                ),
                MaybeSigned::Signature(_) => spend_signature_accepted(
                    rks[i],
                    sighash,
                    signature@,
                ),
            }) && next == maybes.update(i, MaybeSigned::Signature(signature)),
{
    if appended(rks, maybes, sighash, signature) == Err::<Seq<MaybeSigned>, Error>(
        Error::InvalidExternalSignature,
    ) {
        assert forall|i: int| 0 <= i < maybes.len() implies !applies_to(
            rks[i],
            #[trigger] maybes[i],
            sighash,
            signature,
        ) by {}
    }
    if appended(rks, maybes, sighash, signature) == Err::<Seq<MaybeSigned>, Error>(
        Error::DuplicateSignature,
    ) {
        let (i, j) = choose|i: int, j: int|
            0 <= i < j < maybes.len() && applies_to(
                rks[i],
                #[trigger] maybes[i],
                sighash,
                signature,
            ) && applies_to(rks[j], #[trigger] maybes[j], sighash, signature);
        assert(maybes[i] == maybes[i] && maybes[j] == maybes[j]);
    }
    if let Ok(next) = appended(rks, maybes, sighash, signature) {
        let i = choose|i: int|
            0 <= i < maybes.len() && applies_to(rks[i], #[trigger] maybes[i], sighash, signature);
        assert forall|j: int| 0 <= j < maybes.len() && j != i implies !applies_to(
            rks[j],
            #[trigger] maybes[j],
            sighash,
            signature,
        ) by {
            assert(maybes[i] == maybes[i]);
        }
        assert(next =~= maybes.update(i, MaybeSigned::Signature(signature)));
    }
}

/// Appending a list of signatures is appending its first part and then, to what that gives, the
/// rest. A part that is refused has the whole list refused, with the same error. An empty list
/// changes nothing, and a list of one is that one.
pub proof fn law_lists_are_appended_in_parts(
    rks: Seq<Seq<u8>>,
    maybes: Seq<MaybeSigned>,
    sighash: Seq<u8>,
    first: Seq<Signature<SpendAuth>>,
    rest: Seq<Signature<SpendAuth>>,
    signature: Signature<SpendAuth>,
)
    ensures
        all_appended(rks, maybes, sighash, first + rest) == match all_appended(
            rks,
            maybes,
            sighash,
            first,
        ) {
            Ok(next) => all_appended(rks, next, sighash, rest),
            Err(error) => Err(error),
        },
        all_appended(rks, maybes, sighash, Seq::<Signature<SpendAuth>>::empty()) == Ok::<
            Seq<MaybeSigned>,
            Error,
        >(maybes),
        all_appended(rks, maybes, sighash, seq![signature]) == appended(
            rks,
            maybes,
            sighash,
            signature,
        ),
    decreases first.len(),
{
    reveal_with_fuel(all_appended, 2);
    assert(seq![signature].drop_first() =~= Seq::<Signature<SpendAuth>>::empty());
    if first.len() == 0 {
        assert(first + rest =~= rest);
    } else {
        assert((first + rest).first() == first.first());
        assert((first + rest).drop_first() =~= first.drop_first() + rest);
        if let Ok(next) = appended(rks, maybes, sighash, first.first()) {
            law_lists_are_appended_in_parts(
                rks,
                next,
                sighash,
                first.drop_first(),
                rest,
                signature,
            );
        }
    }
}

/// A signature that is valid for no spend has the list refused, wherever in it it stands, once
/// those before it can be appended.
pub proof fn law_bad_signature_refuses_the_list(
    rks: Seq<Seq<u8>>,
    maybes: Seq<MaybeSigned>,
    sighash: Seq<u8>,
    signatures: Seq<Signature<SpendAuth>>,
    k: int,
    reached: Seq<MaybeSigned>,
)
    requires
        0 <= k < signatures.len(),
        all_appended(rks, maybes, sighash, signatures.take(k)) == Ok::<Seq<MaybeSigned>, Error>(
            reached,
        ),
        forall|i: int|
            0 <= i < reached.len() ==> match #[trigger] reached[i] {
                MaybeSigned::SigningMetadata(parts) => !spend_signature_accepted(
                    randomized_key(parts.ak()@, parts.alpha()@),
                    sighash,
                    signatures[k]@,
                ),
                MaybeSigned::Signature(_) => !spend_signature_accepted(
                    rks[i],
                    sighash,
                    signatures[k]@,
                ),
            },
    ensures
        all_appended(rks, maybes, sighash, signatures) == Err::<Seq<MaybeSigned>, Error>(
            Error::InvalidExternalSignature,
        ),
{
    let rest = signatures.skip(k);
    law_what_appending_answers(rks, reached, sighash, signatures[k]);
    law_lists_are_appended_in_parts(
        rks,
        maybes,
        sighash,
        signatures.take(k),
        rest,
        signatures[k],
    );
    law_lists_are_appended_in_parts(
        rks,
        reached,
        sighash,
        seq![signatures[k]],
        rest.skip(1),
        signatures[k],
    );
    assert(signatures =~= signatures.take(k) + rest);
    assert(rest =~= seq![signatures[k]] + rest.skip(1));
}

/// If a list can be appended, every signature of it is valid for a spend: one that its
/// verification key accepts, or that its signing parts do as long as it waits. That spend is
/// signed then. Returned is the spend.
pub proof fn law_every_signature_is_valid(
    rks: Seq<Seq<u8>>,
    maybes: Seq<MaybeSigned>,
    sighash: Seq<u8>,
    signatures: Seq<Signature<SpendAuth>>,
    next: Seq<MaybeSigned>,
    k: int,
) -> (spend: int)
    requires
        all_appended(rks, maybes, sighash, signatures) == Ok::<Seq<MaybeSigned>, Error>(next),
        0 <= k < signatures.len(),
    ensures
        0 <= spend < maybes.len(),
        next.len() == maybes.len(),
        spend_signature_accepted(rks[spend], sighash, signatures[k]@) || (
        maybes[spend] matches MaybeSigned::SigningMetadata(parts) && spend_signature_accepted(
            randomized_key(parts.ak()@, parts.alpha()@),
            sighash,
            signatures[k]@,
        )),
        next[spend] is Signature,
    decreases signatures.len(),
{
    let first = signatures.first();
    law_what_appending_answers(rks, maybes, sighash, first);
    let reached = appended(rks, maybes, sighash, first)->Ok_0;
    let at = choose|i: int|
        0 <= i < maybes.len() && (match #[trigger] maybes[i] {
            MaybeSigned::SigningMetadata(parts) => spend_signature_accepted(
                randomized_key(parts.ak()@, parts.alpha()@),
                sighash,
                first@,
            ),
            MaybeSigned::Signature(_) => spend_signature_accepted(rks[i], sighash, first@),
        }) && reached == maybes.update(i, MaybeSigned::Signature(first));
    let rest = signatures.drop_first();
    if k == 0 {
        law_signed_stays_signed(rks, reached, sighash, rest, next, at);
        at
    } else {
        assert(rest[k - 1] == signatures[k]);
        let spend = law_every_signature_is_valid(rks, reached, sighash, rest, next, k - 1);
        assert(reached[spend] == maybes[spend] || reached[spend] is Signature);
        spend
    }
}

/// Whatever list is appended, a spend that is signed stays signed.
pub proof fn law_signed_stays_signed(
    rks: Seq<Seq<u8>>,
    maybes: Seq<MaybeSigned>,
    sighash: Seq<u8>,
    signatures: Seq<Signature<SpendAuth>>,
    next: Seq<MaybeSigned>,
    spend: int,
)
    requires
        all_appended(rks, maybes, sighash, signatures) == Ok::<Seq<MaybeSigned>, Error>(next),
        0 <= spend < maybes.len(),
        maybes[spend] is Signature,
    ensures
        next.len() == maybes.len(),
        next[spend] is Signature,
    decreases signatures.len(),
{
    if signatures.len() > 0 {
        law_what_appending_answers(rks, maybes, sighash, signatures.first());
        let reached = appended(rks, maybes, sighash, signatures.first())->Ok_0;
        law_signed_stays_signed(
            rks,
            reached,
            sighash,
            signatures.drop_first(),
            next,
            spend,
        );
    }
}

/// What appending a list changes comes from the list: each spend is as it was, or has one of
/// the signatures, and one that is valid for it. Returned is which, or -1.
pub proof fn law_appending_adds_only_what_is_listed(
    rks: Seq<Seq<u8>>,
    maybes: Seq<MaybeSigned>,
    sighash: Seq<u8>,
    signatures: Seq<Signature<SpendAuth>>,
    next: Seq<MaybeSigned>,
    spend: int,
) -> (k: int)
    requires
        all_appended(rks, maybes, sighash, signatures) == Ok::<Seq<MaybeSigned>, Error>(next),
        0 <= spend < maybes.len(),
    ensures
        next.len() == maybes.len(),
        k == -1 || 0 <= k < signatures.len(),
        k == -1 ==> next[spend] == maybes[spend],
        k >= 0 ==> next[spend] == MaybeSigned::Signature(signatures[k]) && (
        spend_signature_accepted(rks[spend], sighash, signatures[k]@) || (
        maybes[spend] matches MaybeSigned::SigningMetadata(parts) && spend_signature_accepted(
            randomized_key(parts.ak()@, parts.alpha()@),
            sighash,
            signatures[k]@,
        ))),
    decreases signatures.len(),
{
    if signatures.len() == 0 {
        -1
    } else {
        let first = signatures.first();
        law_what_appending_answers(rks, maybes, sighash, first);
        let reached = appended(rks, maybes, sighash, first)->Ok_0;
        let rest = signatures.drop_first();
        let k = law_appending_adds_only_what_is_listed(rks, reached, sighash, rest, next, spend);
        if k >= 0 {
            assert(rest[k] == signatures[k + 1]);
            k + 1
        } else if reached[spend] == maybes[spend] {
            -1
        } else {
            0
        }
    }
}

/// Finalizing succeeds exactly where every spend is signed. It gives the bundle as it was, in
/// every field of every spend and output, with those very signatures.
pub proof fn law_finalizing_keeps_everything<V>(
    before: Bundle<InProgress<Proven, PartiallyAuthorized>, V>,
    after: Bundle<Authorized, V>,
)
    ensures
        fully_signed(before) <==> forall|i: int|
            0 <= i < before.shielded_spends@.len() ==> (
            #[trigger] before.shielded_spends@[i]).spend_auth_sig is Signature,
        finalized(before, after) ==> {
            &&& after.shielded_spends@.len() == before.shielded_spends@.len()
            &&& forall|i: int|
                0 <= i < before.shielded_spends@.len() ==> (
                #[trigger] after.shielded_spends@[i]).cv == before.shielded_spends@[i].cv
                    && after.shielded_spends@[i].anchor == before.shielded_spends@[i].anchor
                    && after.shielded_spends@[i].nullifier == before.shielded_spends@[i].nullifier
                    && after.shielded_spends@[i].rk == before.shielded_spends@[i].rk
                    && after.shielded_spends@[i].zkproof == before.shielded_spends@[i].zkproof
                    && before.shielded_spends@[i].spend_auth_sig == MaybeSigned::Signature(
                    after.shielded_spends@[i].spend_auth_sig,
                )
            &&& after.shielded_outputs == before.shielded_outputs
            &&& after.value_balance == before.value_balance
            &&& after.authorization.binding_sig
                == before.authorization.sigs().binding_signature()
        },
{
}

/// Bundles with the same effects agree in every field of every spend and output but for the
/// signature.
pub proof fn law_signing_keeps_everything_else<P: InProgressProofs, V>(
    before: Bundle<InProgress<P, PartiallyAuthorized>, V>,
    after: Bundle<InProgress<P, PartiallyAuthorized>, V>,
)
    requires
        same_effects(before, after),
    ensures
        after.shielded_spends@.len() == before.shielded_spends@.len(),
        forall|i: int|
            0 <= i < before.shielded_spends@.len() ==> (#[trigger] after.shielded_spends@[i]).cv
                == before.shielded_spends@[i].cv && after.shielded_spends@[i].anchor
                == before.shielded_spends@[i].anchor && after.shielded_spends@[i].nullifier
                == before.shielded_spends@[i].nullifier && after.shielded_spends@[i].rk
                == before.shielded_spends@[i].rk && after.shielded_spends@[i].zkproof
                == before.shielded_spends@[i].zkproof,
        after.shielded_outputs == before.shielded_outputs,
        after.value_balance == before.value_balance,
        spend_keys(after) == spend_keys(before),
        spend_signatures(after).len() == after.shielded_spends@.len(),
        forall|i: int|
            0 <= i < after.shielded_spends@.len() ==> #[trigger] spend_signatures(after)[i]
                == after.shielded_spends@[i].spend_auth_sig && spend_keys(after)[i]
                == after.shielded_spends@[i].rk@,
{
    assert(spend_keys(after) =~= spend_keys(before));
}

/// Applying signatures keeps every field of every spend and output, and puts in a signature for
/// each spend that its key, randomized, accepts over the sighash, and a binding signature over
/// it. It can be done exactly where for every spend one of the keys is the one that it waits
/// for.
pub proof fn law_applying_signs_everything<V>(
    before: Bundle<InProgress<Proven, Unsigned>, V>,
    sighash: Seq<u8>,
    keys: Seq<SpendAuthorizingKey>,
    after: Bundle<Authorized, V>,
    parts: SigningParts,
)
    ensures
        signable_by_some(parts, keys) <==> exists|k: int|
            0 <= k < keys.len() && parts.ak()@ == spend_verification_key(#[trigger] keys[k]@),
        signatures_applied(before, sighash, after) ==> {
            &&& after.shielded_spends@.len() == before.shielded_spends@.len()
            &&& forall|i: int|
                0 <= i < before.shielded_spends@.len() ==> (
                #[trigger] after.shielded_spends@[i]).cv == before.shielded_spends@[i].cv
                    && after.shielded_spends@[i].anchor == before.shielded_spends@[i].anchor
                    && after.shielded_spends@[i].nullifier == before.shielded_spends@[i].nullifier
                    && after.shielded_spends@[i].rk == before.shielded_spends@[i].rk
                    && after.shielded_spends@[i].zkproof == before.shielded_spends@[i].zkproof
                    && spend_signature_accepted(
                    randomized_key(
                        before.shielded_spends@[i].spend_auth_sig.ak()@,
                        before.shielded_spends@[i].spend_auth_sig.alpha()@,
                    ),
                    sighash,
                    after.shielded_spends@[i].spend_auth_sig@,
                )
            &&& after.shielded_outputs == before.shielded_outputs
            &&& after.value_balance == before.value_balance
            &&& binding_signature_accepted(
                binding_verification_key(before.authorization.sigs().bsk()@),
                sighash,
                after.authorization.binding_sig@,
            )
        },
{
    if signable_by_some(parts, keys) {
        let k = choose|k: int|
            0 <= k < keys.len() && signable(parts, #[trigger] keys[k]@);
        assert(keys[k]@ == keys[k]@);
    }
}

/// In an authorized bundle the verification key of every spend accepts its signature.
pub proof fn law_authorized_spends_verify<V>(bundle: Bundle<Authorized, V>, sighash: Seq<u8>)
    ensures
        spends_authorized(bundle, sighash) <==> forall|i: int|
            0 <= i < bundle.shielded_spends@.len() ==> spend_signature_accepted(
                (#[trigger] bundle.shielded_spends@[i]).rk@,
                sighash,
                bundle.shielded_spends@[i].spend_auth_sig@,
            ),
{
}

} // verus!
