//! Creating the proofs of a bundle.

use crate::bundle::{Bundle, OutputDescription, SpendDescription};
use crate::in_progress::{InProgress, InProgressSignatures, Proven, Unproven};
use crate::prover::{
    draw_output_proof, draw_spend_proof, output_proof_drawn, spend_proof_drawn, GrothProofBytes,
    Output, OutputProver, Spend, SpendProver,
};
use core::marker::PhantomData;
use rand::rngs::StdRng;
use std::sync::mpsc::{SendError, Sender};
use vstd::prelude::*;

verus! {

/// Reports on the progress made towards creating proofs for a bundle.
pub trait ProverProgress {
    /// Updates the progress instance with the number of steps completed and the total
    /// number of steps.
    fn update(&mut self, cur: u32, end: u32);
}

impl ProverProgress for () {
    fn update(&mut self, cur: u32, end: u32) {
    }
}

/// The sending half of a channel. It is opaque.
#[verifier::external_type_specification]
#[verifier::external_body]
#[verifier::reject_recursive_types(T)]
pub struct ExSender<T>(std::sync::mpsc::Sender<T>);

/// The error of a channel whose receiver is gone.
#[verifier::external_type_specification]
#[verifier::external_body]
#[verifier::reject_recursive_types(T)]
pub struct ExSendError<T>(std::sync::mpsc::SendError<T>);

/// `std::sync::mpsc::Sender::send`. Nothing is claimed of whether the value arrives.
pub assume_specification<T>[ std::sync::mpsc::Sender::<T>::send ](
    sender: &std::sync::mpsc::Sender<T>,
    t: T,
) -> (sent: Result<(), std::sync::mpsc::SendError<T>>)
;

impl<U: From<(u32, u32)>> ProverProgress for Sender<U> {
    fn update(&mut self, cur: u32, end: u32)
        ensures
            exists|message: U, sent: Result<(), SendError<U>>|
                call_ensures(U::from, ((cur, end),), message) && #[trigger] call_ensures(
                    Sender::<U>::send,
                    (&*old(self), message),
                    sent,
                ),
    {
        // If the send fails, we should ignore the error, not crash.
        match self.send(U::from((cur, end))) {
            Ok(_) => {},
            Err(_) => {},
        }
    }
}

impl<U: ProverProgress> ProverProgress for &mut U {
    fn update(&mut self, cur: u32, end: u32)
        ensures
            exists|inner: &mut U|
                *inner == **old(self) && *final(inner) == **final(self) && #[trigger] call_ensures(
                    U::update,
                    (inner, cur, end),
                    (),
                ),
    {
        (*self).update(cur, end);
    }
}

/// `bytes` encodes a proof that the prover makes for this circuit with a generator in the
/// state `before`, which is in the state `after` then.
pub open spec fn spend_proved<SP: SpendProver>(
    before: StdRng,
    prover: SP,
    circuit: Spend,
    bytes: GrothProofBytes,
    after: StdRng,
) -> bool {
    exists|made: SP::Proof| #[trigger]
        spend_proof_drawn(before, prover, circuit, made, after) && call_ensures(
            SP::encode_proof,
            (made,),
            bytes,
        )
}

/// `bytes` encodes a proof that the prover makes for this circuit with a generator in the
/// state `before`, which is in the state `after` then.
pub open spec fn output_proved<OP: OutputProver>(
    before: StdRng,
    prover: OP,
    circuit: Output,
    bytes: GrothProofBytes,
    after: StdRng,
) -> bool {
    exists|made: OP::Proof| #[trigger]
        output_proof_drawn(before, prover, circuit, made, after) && call_ensures(
            OP::encode_proof,
            (made,),
            bytes,
        )
}

/// The provers at work, and how far they are.
pub struct CreateProofs<'a, SP: SpendProver, OP: OutputProver, U: ProverProgress> {
    pub(crate) spend_prover: &'a SP,
    pub(crate) output_prover: &'a OP,
    pub(crate) progress_notifier: U,
    pub(crate) total_progress: u32,
    pub(crate) progress: u32,
}

impl<'a, SP: SpendProver, OP: OutputProver, U: ProverProgress> CreateProofs<'a, SP, OP, U> {
    /// No proof has been made yet.
    fn new(
        spend_prover: &'a SP,
        output_prover: &'a OP,
        progress_notifier: U,
        total_progress: u32,
    ) -> (context: Self)
        ensures
            context == (CreateProofs {
                spend_prover,
                output_prover,
                progress_notifier,
                total_progress,
                progress: 0,
            }),
    {
        // Keep track of the total number of steps computed
        CreateProofs {
            spend_prover,
            output_prover,
            progress_notifier,
            total_progress,
            progress: 0u32,
        }
    }

    /// Counts a step and reports it.
    fn update_progress(&mut self)
        requires
            old(self).progress < u32::MAX,
        ensures
            *final(self) == (CreateProofs {
                progress: (old(self).progress + 1) as u32,
                progress_notifier: final(self).progress_notifier,
                ..*old(self)
            }),
            exists|notifier: &mut U|
                *notifier == old(self).progress_notifier && *final(notifier)
                    == final(self).progress_notifier && #[trigger] call_ensures(
                    U::update,
                    (notifier, (old(self).progress + 1) as u32, old(self).total_progress),
                    (),
                ),
    {
        // Update progress and send a notification on the channel
        let progress: u32 = self.progress + 1;
        let total_progress: u32 = self.total_progress;
        self.progress = progress;
        self.progress_notifier.update(progress, total_progress);
    }

    /// Proves a spend and reports it.
    fn map_spend_proof(&mut self, spend: Spend, rng: &mut StdRng) -> (bytes: GrothProofBytes)
        requires
            old(self).progress < u32::MAX,
        ensures
            spend_proved(*old(rng), *old(self).spend_prover, spend, bytes, *final(rng)),
            *final(self) == (CreateProofs {
                progress: (old(self).progress + 1) as u32,
                progress_notifier: final(self).progress_notifier,
                ..*old(self)
            }),
            exists|notifier: &mut U|
                *notifier == old(self).progress_notifier && *final(notifier)
                    == final(self).progress_notifier && #[trigger] call_ensures(
                    U::update,
                    (notifier, (old(self).progress + 1) as u32, old(self).total_progress),
                    (),
                ),
    {
        let drawn = draw_spend_proof(self.spend_prover, spend, rng.clone());
        *rng = drawn.rng;
        assert(spend_proof_drawn(
            *old(rng),
            *self.spend_prover,
            spend,
            drawn.value,
            *rng,
        ));
        self.update_progress();
        SP::encode_proof(drawn.value)
    }

    /// Proves an output and reports it.
    fn map_output_proof(&mut self, output: Output, rng: &mut StdRng) -> (bytes: GrothProofBytes)
        requires
            old(self).progress < u32::MAX,
        ensures
            output_proved(*old(rng), *old(self).output_prover, output, bytes, *final(rng)),
            *final(self) == (CreateProofs {
                progress: (old(self).progress + 1) as u32,
                progress_notifier: final(self).progress_notifier,
                ..*old(self)
            }),
            exists|notifier: &mut U|
                *notifier == old(self).progress_notifier && *final(notifier)
                    == final(self).progress_notifier && #[trigger] call_ensures(
                    U::update,
                    (notifier, (old(self).progress + 1) as u32, old(self).total_progress),
                    (),
                ),
    {
        let drawn = draw_output_proof(self.output_prover, output, rng.clone());
        *rng = drawn.rng;
        assert(output_proof_drawn(
            *old(rng),
            *self.output_prover,
            output,
            drawn.value,
            *rng,
        ));
        self.update_progress();
        OP::encode_proof(drawn.value)
    }

    /// Proofs leave the state of a signature as it is.
    fn map_auth_sig<S: InProgressSignatures>(&mut self, s: S::AuthSig) -> (mapped: S::AuthSig)
        ensures
            mapped == s,
            *final(self) == *old(self),
    {
        s
    }

    /// The bundle counts as proven, and the state of its signatures stays as it is.
    fn map_authorization<S: InProgressSignatures>(&mut self, a: InProgress<Unproven, S>) -> (mapped:
        InProgress<Proven, S>)
        ensures
            mapped.sigs() == a.sigs(),
            *final(self) == *old(self),
    {
        InProgress { sigs: a.sigs, proof_state: PhantomData }
    }
}

/// Of this many steps, the one of this index is done, and with it `done` of them.
pub open spec fn step_done(steps: int, index: int, done: u32) -> bool {
    0 <= index < steps && done == index + 1
}

/// A spend as it was, but for its circuit, in place of which stands a proof. The generator
/// is in the state `start` at first and in the state `end` then.
pub open spec fn spend_now_proven<S: InProgressSignatures, SP: SpendProver>(
    prover: SP,
    start: StdRng,
    before: SpendDescription<InProgress<Unproven, S>>,
    after: SpendDescription<InProgress<Proven, S>>,
    end: StdRng,
) -> bool {
    &&& after.cv == before.cv
    &&& after.anchor == before.anchor
    &&& after.nullifier == before.nullifier
    &&& after.rk == before.rk
    &&& spend_proved(start, prover, before.zkproof, after.zkproof, end)
    &&& after.spend_auth_sig == before.spend_auth_sig
}

/// An output as it was, but for its circuit, in place of which stands a proof. The generator
/// is in the state `start` at first and in the state `end` then.
pub open spec fn output_now_proven<OP: OutputProver>(
    prover: OP,
    start: StdRng,
    before: OutputDescription<Output>,
    after: OutputDescription<GrothProofBytes>,
    end: StdRng,
) -> bool {
    &&& after.cv == before.cv
    &&& after.cmu == before.cmu
    &&& after.ephemeral_key == before.ephemeral_key
    &&& after.enc_ciphertext == before.enc_ciphertext
    &&& after.out_ciphertext == before.out_ciphertext
    &&& output_proved(start, prover, before.zkproof, after.zkproof, end)
}

/// The spends are proven, in order. The generator goes through `states`: it is used for each
/// proof in its turn and for nothing else.
pub open spec fn spends_now_proven<S: InProgressSignatures, SP: SpendProver>(
    prover: SP,
    states: Seq<StdRng>,
    before: Seq<SpendDescription<InProgress<Unproven, S>>>,
    after: Seq<SpendDescription<InProgress<Proven, S>>>,
) -> bool {
    &&& states.len() == before.len() + 1
    &&& after.len() == before.len()
    &&& forall|i: int|
        0 <= i < before.len() ==> spend_now_proven(
            prover,
            states[i],
            before[i],
            #[trigger] after[i],
            states[i + 1],
        )
}

/// The outputs are proven, in order. The generator goes through `states`: it is used for each
/// proof in its turn and for nothing else.
pub open spec fn outputs_now_proven<OP: OutputProver>(
    prover: OP,
    states: Seq<StdRng>,
    before: Seq<OutputDescription<Output>>,
    after: Seq<OutputDescription<GrothProofBytes>>,
) -> bool {
    &&& states.len() == before.len() + 1
    &&& after.len() == before.len()
    &&& forall|i: int|
        0 <= i < before.len() ==> output_now_proven(
            prover,
            states[i],
            before[i],
            #[trigger] after[i],
            states[i + 1],
        )
}

/// The bundle as it was, with a proof in place of every circuit. The generator is in the
/// state `start` at first. The spends are proven with it, then the outputs, and it is in the
/// state `end` then.
pub open spec fn now_proven<S: InProgressSignatures, V, SP: SpendProver, OP: OutputProver>(
    spend_prover: SP,
    output_prover: OP,
    start: StdRng,
    before: Bundle<InProgress<Unproven, S>, V>,
    after: Bundle<InProgress<Proven, S>, V>,
    end: StdRng,
) -> bool {
    &&& exists|first: Seq<StdRng>, second: Seq<StdRng>|
        {
            &&& first[0] == start
            &&& #[trigger] spends_now_proven(
                spend_prover,
                first,
                before.shielded_spends@,
                after.shielded_spends@,
            )
            &&& second[0] == first.last()
            &&& #[trigger] outputs_now_proven(
                output_prover,
                second,
                before.shielded_outputs@,
                after.shielded_outputs@,
            )
            &&& second.last() == end
        }
    &&& after.value_balance == before.value_balance
    &&& after.authorization.sigs() == before.authorization.sigs()
}

/// One update more: it leads from the last state of the notifier to `next`, and counts all
/// the steps so far.
proof fn lemma_step_added<U: ProverProgress>(states: Seq<U>, next: U, done: u32, total: u32)
    requires
        states.len() == done > 0,
        forall|i: int, d: u32| #[trigger]
            step_done(states.len() - 1, i, d) ==> exists|notifier: &mut U|
                *notifier == states[i] && *final(notifier) == states[i + 1]
                    && #[trigger] call_ensures(U::update, (notifier, d, total), ()),
        exists|notifier: &mut U|
            *notifier == states.last() && *final(notifier) == next && #[trigger] call_ensures(
                U::update,
                (notifier, done, total),
                (),
            ),
    ensures
        forall|i: int, d: u32| #[trigger]
            step_done(states.len() as int, i, d) ==> exists|notifier: &mut U|
                *notifier == states.push(next)[i] && *final(notifier) == states.push(next)[i + 1]
                    && #[trigger] call_ensures(U::update, (notifier, d, total), ()),
{
    assert forall|i: int, d: u32| #[trigger]
        step_done(states.len() as int, i, d) implies exists|notifier: &mut U|
        *notifier == states.push(next)[i] && *final(notifier) == states.push(next)[i + 1]
            && #[trigger] call_ensures(U::update, (notifier, d, total), ()) by {
        if i < states.len() - 1 {
            assert(step_done(states.len() - 1, i, d));
        }
    }
}

impl<S: InProgressSignatures, V> Bundle<InProgress<Unproven, S>, V> {
    /// Creates the proofs for this bundle.
    ///
    /// After each proof the notifier is updated: with the number of proofs that there
    /// are by then, and with the number that there will be. It is not updated otherwise.
    /// The generator is used for the proofs of the spends and then for those of the outputs.
    pub fn create_proofs<SP: SpendProver, OP: OutputProver, U: ProverProgress>(
        self,
        spend_prover: &SP,
        output_prover: &OP,
        rng: &mut StdRng,
        progress_notifier: U,
    ) -> (bundle: Bundle<InProgress<Proven, S>, V>)
        requires
            self.shielded_spends@.len() + self.shielded_outputs@.len() <= u32::MAX,
        ensures
            now_proven(*spend_prover, *output_prover, *old(rng), self, bundle, *final(rng)),
            bundle.shielded_spends@.len() == self.shielded_spends@.len(),
            bundle.shielded_outputs@.len() == self.shielded_outputs@.len(),
            forall|i: int|
                0 <= i < self.shielded_spends@.len() ==> {
                    let before = self.shielded_spends@[i];
                    let after = #[trigger] bundle.shielded_spends@[i];
                    &&& after.cv == before.cv
                    &&& after.anchor == before.anchor
                    &&& after.nullifier == before.nullifier
                    &&& after.rk == before.rk
                    &&& after.spend_auth_sig == before.spend_auth_sig
                },
            forall|i: int|
                0 <= i < self.shielded_outputs@.len() ==> {
                    let before = self.shielded_outputs@[i];
                    let after = #[trigger] bundle.shielded_outputs@[i];
                    &&& after.cv == before.cv
                    &&& after.cmu == before.cmu
                    &&& after.ephemeral_key == before.ephemeral_key
                    &&& after.enc_ciphertext == before.enc_ciphertext
                    &&& after.out_ciphertext == before.out_ciphertext
                },
            bundle.value_balance == self.value_balance,
            bundle.authorization.sigs() == self.authorization.sigs(),
            exists|states: Seq<U>|
                #![trigger states.len()]
                {
                    let total = self.shielded_spends@.len() + self.shielded_outputs@.len();
                    &&& states.len() == total + 1
                    &&& states[0] == progress_notifier
                    &&& has_resolved(states[total as int])
                    &&& forall|i: int, done: u32| #[trigger]
                        step_done(total as int, i, done) ==> exists|notifier: &mut U|
                            *notifier == states[i] && *final(notifier) == states[i + 1]
                                && #[trigger] call_ensures(
                                U::update,
                                (notifier, done, total as u32),
                                (),
                            )
                },
    {
        let total_progress: u32 = self.shielded_spends.len() as u32
            + self.shielded_outputs.len() as u32;
        let ghost total = self.shielded_spends@.len() + self.shielded_outputs@.len();
        let ghost spends = self.shielded_spends@;
        let ghost outputs = self.shielded_outputs@;
        let mut context = CreateProofs::new(
            spend_prover,
            output_prover,
            progress_notifier,
            total_progress,
        );
        let ghost mut states: Seq<U> = seq![progress_notifier];
        let ghost mut first: Seq<StdRng> = seq![*rng];
        let mut shielded_spends: Vec<SpendDescription<InProgress<Proven, S>>> = Vec::new();
        for d in it: self.shielded_spends
            invariant
                it.seq() == spends,
                spends.len() + outputs.len() == total,
                total <= u32::MAX,
                total_progress == total,
                context.spend_prover == spend_prover,
                context.output_prover == output_prover,
                context.total_progress == total_progress,
                context.progress == it.index(),
                shielded_spends@.len() == it.index(),
                forall|i: int|
                    0 <= i < it.index() ==> spend_now_proven(
                        *spend_prover,
                        first[i],
                        spends[i],
                        #[trigger] shielded_spends@[i],
                        first[i + 1],
                    ),
                first.len() == it.index() + 1,
                first[0] == *old(rng),
                first.last() == *rng,
                states.len() == it.index() + 1,
                states[0] == progress_notifier,
                states.last() == context.progress_notifier,
                forall|i: int, done: u32| #[trigger]
                    step_done(states.len() - 1, i, done) ==> exists|notifier: &mut U|
                        *notifier == states[i] && *final(notifier) == states[i + 1]
                            && #[trigger] call_ensures(
                            U::update,
                            (notifier, done, total as u32),
                            (),
                        ),
        {
            let zkproof = context.map_spend_proof(d.zkproof, rng);
            let spend_auth_sig = context.map_auth_sig::<S>(d.spend_auth_sig);
            proof {
                lemma_step_added(states, context.progress_notifier, context.progress, total as u32);
                states = states.push(context.progress_notifier);
                first = first.push(*rng);
            }
            shielded_spends.push(
                SpendDescription {
                    cv: d.cv,
                    anchor: d.anchor,
                    nullifier: d.nullifier,
                    rk: d.rk,
                    zkproof,
                    spend_auth_sig,
                },
            );
        }
        let ghost mut second: Seq<StdRng> = seq![*rng];
        let mut shielded_outputs: Vec<OutputDescription<GrothProofBytes>> = Vec::new();
        for d in it: self.shielded_outputs
            invariant
                it.seq() == outputs,
                spends.len() + outputs.len() == total,
                total <= u32::MAX,
                total_progress == total,
                context.output_prover == output_prover,
                context.total_progress == total_progress,
                context.progress == spends.len() + it.index(),
                shielded_outputs@.len() == it.index(),
                forall|i: int|
                    0 <= i < it.index() ==> output_now_proven(
                        *output_prover,
                        second[i],
                        outputs[i],
                        #[trigger] shielded_outputs@[i],
                        second[i + 1],
                    ),
                second.len() == it.index() + 1,
                second[0] == first.last(),
                second.last() == *rng,
                states.len() == spends.len() + it.index() + 1,
                states[0] == progress_notifier,
                states.last() == context.progress_notifier,
                forall|i: int, done: u32| #[trigger]
                    step_done(states.len() - 1, i, done) ==> exists|notifier: &mut U|
                        *notifier == states[i] && *final(notifier) == states[i + 1]
                            && #[trigger] call_ensures(
                            U::update,
                            (notifier, done, total as u32),
                            (),
                        ),
        {
            let zkproof = context.map_output_proof(d.zkproof, rng);
            proof {
                lemma_step_added(states, context.progress_notifier, context.progress, total as u32);
                states = states.push(context.progress_notifier);
                second = second.push(*rng);
            }
            shielded_outputs.push(
                OutputDescription {
                    cv: d.cv,
                    cmu: d.cmu,
                    ephemeral_key: d.ephemeral_key,
                    enc_ciphertext: d.enc_ciphertext,
                    out_ciphertext: d.out_ciphertext,
                    zkproof,
                },
            );
        }
        let authorization = context.map_authorization(self.authorization);
        let bundle = Bundle {
            shielded_spends,
            shielded_outputs,
            value_balance: self.value_balance,
            authorization,
        };
        proof {
            assert(spends_now_proven(
                *spend_prover,
                first,
                self.shielded_spends@,
                bundle.shielded_spends@,
            ));
            assert(outputs_now_proven(
                *output_prover,
                second,
                self.shielded_outputs@,
                bundle.shielded_outputs@,
            ));
        }
        bundle
    }
}

} // verus!
