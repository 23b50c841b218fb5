//! Outputs that have been added to a builder, and the dummies that pad them.

use crate::bundle::OutputDescription;
use crate::keys::OutgoingViewingKey;
use crate::note::{
    draw_encryption, draw_out_ciphertext, encryption_drawn, generate_random_rseed,
    out_ciphertext_drawn, rseed_drawn, rseed_follows, Diversifier, Note, PaymentAddress, Protocol,
    SaplingIvk, Zip212Enforcement,
};
use crate::point::combination;
use crate::prover::{Output, OutputProver};
use crate::random::{bytes_drawn, random_bytes};
use crate::scalar::{scalar_drawn, Fr};
use crate::value::{trapdoor_drawn, NoteValue, ValueCommitTrapdoor, ValueCommitment};
use rand::rngs::StdRng;
use vstd::prelude::*;

verus! {

/// A struct containing the information required in order to construct a
/// Sapling output to a transaction.
#[derive(Clone, Copy)]
pub struct SaplingOutputInfo {
    /// `None` where the sender is not to be able to read the output again.
    pub(crate) ovk: Option<OutgoingViewingKey>,
    pub(crate) note: Note,
    pub(crate) memo: Option<[u8; 512]>,
    pub(crate) rcv: ValueCommitTrapdoor,
}

impl SaplingOutputInfo {
    /// The key with which the sender can read the output again.
    pub open(crate) spec fn ovk(&self) -> Option<OutgoingViewingKey> {
        self.ovk
    }

    /// The note that is sent.
    pub open(crate) spec fn note(&self) -> Note {
        self.note
    }

    /// The memo that goes with the note.
    pub open(crate) spec fn memo(&self) -> Option<[u8; 512]> {
        self.memo
    }

    /// The randomness of the output's value commitment.
    pub open(crate) spec fn rcv(&self) -> ValueCommitTrapdoor {
        self.rcv
    }

    /// An output of no value, to an address that was drawn at random. `None` where
    /// every one of `u64::MAX` draws was without an address.
    pub(crate) fn dummy<N: Protocol>(
        rng: &mut StdRng,
        zip212_enforcement: Zip212Enforcement,
    ) -> (info: Option<Self>)
        ensures
            match info {
                Some(info) => {
                    &&& dummy_drawn::<N>(*old(rng), zip212_enforcement, info, *final(rng))
                    &&& is_dummy::<N>(info, zip212_enforcement)
                },
                None => address_drawn::<N>(*old(rng), None, *final(rng)),
            },
    {
        match Self::dummy_address::<N>(rng) {
            Some(dummy_to) => {
                let ghost between = *rng;
                let info = Self::new_internal(
                    rng,
                    None,
                    dummy_to,
                    NoteValue::from_raw(0),
                    None,
                    zip212_enforcement,
                );
                assert(address_drawn::<N>(*old(rng), Some(info.note().recipient), between));
                Some(info)
            },
            None => None,
        }
    }

    /// Draws diversifiers and viewing keys until a pair has an address.
    fn dummy_address<N: Protocol>(rng: &mut StdRng) -> (address: Option<PaymentAddress>)
        ensures
            address_drawn::<N>(*old(rng), address, *final(rng)),
    {
        let mut draws: u64 = 0;
        let ghost mut states: Seq<StdRng> = seq![*rng];
        let ghost mut pairs: Seq<(SaplingIvk, Diversifier)> = Seq::empty();
        while draws < u64::MAX
            invariant
                pairs.len() == draws,
                states.len() == draws + 1,
                states[0] == *old(rng),
                states.last() == *rng,
                forall|i: int|
                    0 <= i < pairs.len() ==> pair_drawn(
                        states[i],
                        #[trigger] pairs[i],
                        states[i + 1],
                    ) && call_ensures(
                        N::to_payment_address,
                        (&pairs[i].0, pairs[i].1),
                        None::<PaymentAddress>,
                    ),
            decreases u64::MAX - draws,
        {
            let ghost before = *rng;
            let diversifier = Diversifier(random_bytes::<11>(rng));
            let ghost between = *rng;
            let dummy_ivk = SaplingIvk(Fr::random(rng));
            let address = N::to_payment_address(&dummy_ivk, diversifier);
            proof {
                let pair = (dummy_ivk, diversifier);
                assert(bytes_drawn(before, (pair.1).0, between));
                assert(scalar_drawn(between, (pair.0).0, *rng));
                assert(pair_drawn(before, pair, *rng));
                states = states.push(*rng);
                pairs = pairs.push(pair);
            }
            if address.is_some() {
                assert(drawn_until::<N>(*old(rng), states, pairs, address, *rng));
                return address;
            }
            draws = draws + 1;
        }
        assert(drawn_until::<N>(*old(rng), states, pairs, None, *rng));
        None
    }

    /// Draws the randomness of an output.
    pub(crate) fn new_internal(
        rng: &mut StdRng,
        ovk: Option<OutgoingViewingKey>,
        to: PaymentAddress,
        value: NoteValue,
        memo: Option<[u8; 512]>,
        zip212_enforcement: Zip212Enforcement,
    ) -> (info: Self)
        ensures
            output_drawn(
                *old(rng),
                ovk,
                to,
                value,
                memo,
                zip212_enforcement,
                info,
                *final(rng),
            ),
    {
        let rseed = generate_random_rseed(zip212_enforcement, rng);
        let ghost between = *rng;
        let note = Note { recipient: to, value, rseed };
        let info = SaplingOutputInfo { ovk, note, memo, rcv: ValueCommitTrapdoor::random(rng) };
        assert(rseed_drawn(*old(rng), zip212_enforcement, info.note().rseed, between));
        info
    }

    /// The memo to send: the one given, or else the one that says there is none.
    pub fn memo_or_default(&self) -> (memo: [u8; 512])
        ensures
            memo@ == sent_memo(*self),
            self.memo() matches Some(given) ==> memo@ == given@,
            self.memo() is None ==> memo@[0] == 0xf6u8 && forall|i: int|
                1 <= i < 512 ==> #[trigger] memo@[i] == 0u8,
    {
        match self.memo {
            Some(memo) => memo,
            None => {
                let mut memo: [u8; 512] = [0u8; 512];
                memo[0] = 0xf6;
                assert(memo@ =~= no_memo());
                memo
            },
        }
    }

    /// Encrypts the note, prepares the circuit, and describes this output.
    pub(crate) fn build<N: Protocol, OP: OutputProver>(self, rng: &mut StdRng) -> (description:
        OutputDescription<Output>)
        ensures
            output_built::<N, OP>(*old(rng), self, description, *final(rng)),
    {
        let memo = self.memo_or_default();
        let encryption = draw_encryption::<N>(self.ovk, self.note, memo, rng.clone());
        *rng = encryption.rng;
        let ghost between = *rng;
        let encryptor = encryption.value;
        // Construct the value commitment.
        let cv = ValueCommitment::derive(self.note.value, &self.rcv);
        // Prepare the circuit that will be used to construct the proof.
        let esk = N::esk(&encryptor);
        let rcm = N::rcm(&self.note);
        let zkproof = OP::prepare_circuit(
            esk,
            self.note.recipient,
            rcm,
            self.note.value,
            self.rcv,
        );
        let cmu = N::cmu(&self.note);
        let enc_ciphertext = N::encrypt_note_plaintext(&encryptor);
        let outgoing = draw_out_ciphertext::<N>(&encryptor, &cv, &cmu, rng.clone());
        *rng = outgoing.rng;
        let ephemeral_key = N::epk(&encryptor);
        let description = OutputDescription {
            cv,
            cmu,
            ephemeral_key,
            enc_ciphertext,
            out_ciphertext: outgoing.value,
            zkproof,
        };
        proof {
            assert(encryption_drawn::<N>(
                *old(rng),
                self.ovk(),
                self.note(),
                memo,
                encryptor,
                between,
            ));
            assert(out_ciphertext_drawn::<N>(
                between,
                encryptor,
                description.cv,
                description.cmu,
                description.out_ciphertext,
                *rng,
            ));
            assert(encrypted::<N>(*old(rng), self, description, encryptor, esk, *rng));
            assert(output_circuit_prepared::<N, OP>(self, esk, zkproof));
        }
        description
    }

    /// The address that the output is sent to.
    pub fn recipient(&self) -> (recipient: PaymentAddress)
        ensures
            recipient == self.note().recipient,
    {
        self.note.recipient
    }

    /// The value of the output.
    pub fn value(&self) -> (value: NoteValue)
        ensures
            value == self.note().value,
    {
        self.note.value
    }
}

/// The output sends this value to this address, with randomness of the form that the
/// enforcement asks for.
pub open spec fn sends_to(
    info: SaplingOutputInfo,
    ovk: Option<OutgoingViewingKey>,
    to: PaymentAddress,
    value: NoteValue,
    memo: Option<[u8; 512]>,
    zip212_enforcement: Zip212Enforcement,
) -> bool {
    &&& info.ovk() == ovk
    &&& info.note().recipient == to
    &&& info.note().value == value
    &&& info.memo() == memo
    &&& rseed_follows(zip212_enforcement, info.note().rseed)
}

/// A generator in the state `before` gives the randomness of the output's note and then
/// that of its commitment, and is in the state `after` then.
pub open spec fn output_drawn(
    before: StdRng,
    ovk: Option<OutgoingViewingKey>,
    to: PaymentAddress,
    value: NoteValue,
    memo: Option<[u8; 512]>,
    zip212_enforcement: Zip212Enforcement,
    info: SaplingOutputInfo,
    after: StdRng,
) -> bool {
    &&& sends_to(info, ovk, to, value, memo, zip212_enforcement)
    &&& exists|between: StdRng| #[trigger]
        rseed_drawn(before, zip212_enforcement, info.note().rseed, between) && trapdoor_drawn(
            between,
            info.rcv(),
            after,
        )
}

/// A generator in the state `before` gives the diversifier and then the viewing key of
/// this pair, and is in the state `after` then.
pub open spec fn pair_drawn(
    before: StdRng,
    pair: (SaplingIvk, Diversifier),
    after: StdRng,
) -> bool {
    exists|between: StdRng| #[trigger]
        bytes_drawn(before, (pair.1).0, between) && scalar_drawn(between, (pair.0).0, after)
}

/// The pairs are drawn one after the other, from the state `before` through the others to
/// the state `after`. All but the last are without an address; of the last, `address` is
/// what the protocol gives. If that is none too, there are `u64::MAX` pairs.
pub open spec fn drawn_until<N: Protocol>(
    before: StdRng,
    states: Seq<StdRng>,
    pairs: Seq<(SaplingIvk, Diversifier)>,
    address: Option<PaymentAddress>,
    after: StdRng,
) -> bool {
    &&& 0 < pairs.len() <= u64::MAX
    &&& states.len() == pairs.len() + 1
    &&& states[0] == before
    &&& states.last() == after
    &&& forall|i: int|
        0 <= i < pairs.len() ==> pair_drawn(states[i], #[trigger] pairs[i], states[i + 1])
    &&& forall|i: int|
        0 <= i < pairs.len() - 1 ==> call_ensures(
            N::to_payment_address,
            (&(#[trigger] pairs[i]).0, pairs[i].1),
            None::<PaymentAddress>,
        )
    &&& call_ensures(N::to_payment_address, (&pairs.last().0, pairs.last().1), address)
    &&& address is None ==> pairs.len() == u64::MAX
}

/// `address` is that of the first pair drawn that has one, where the generator is in the
/// state `before` at first and in the state `after` then; it is `None` where none of
/// `u64::MAX` pairs has one.
pub open spec fn address_drawn<N: Protocol>(
    before: StdRng,
    address: Option<PaymentAddress>,
    after: StdRng,
) -> bool {
    exists|states: Seq<StdRng>, pairs: Seq<(SaplingIvk, Diversifier)>| #[trigger]
        drawn_until::<N>(before, states, pairs, address, after)
}

/// A generator in the state `before` gives the address of this dummy output and then its
/// randomness, and is in the state `after` then.
pub open spec fn dummy_drawn<N: Protocol>(
    before: StdRng,
    zip212_enforcement: Zip212Enforcement,
    info: SaplingOutputInfo,
    after: StdRng,
) -> bool {
    &&& info.note().value@ == 0
    &&& exists|between: StdRng| #[trigger]
        address_drawn::<N>(before, Some(info.note().recipient), between) && output_drawn(
            between,
            None,
            info.note().recipient,
            info.note().value,
            None,
            zip212_enforcement,
            info,
            after,
        )
}

/// An output of no value and without a memo, to some address that the protocol
/// derives.
pub open spec fn is_dummy<N: Protocol>(
    info: SaplingOutputInfo,
    zip212_enforcement: Zip212Enforcement,
) -> bool {
    &&& info.ovk() is None
    &&& info.memo() is None
    &&& info.note().value@ == 0
    &&& rseed_follows(zip212_enforcement, info.note().rseed)
    &&& exists|ivk: SaplingIvk, diversifier: Diversifier| #[trigger]
        call_ensures(N::to_payment_address, (&ivk, diversifier), Some(info.note().recipient))
}

/// The memo that says there is none: `0xf6` and then zeros.
pub open spec fn no_memo() -> Seq<u8> {
    Seq::new(512, |i: int| if i == 0 { 0xf6u8 } else { 0u8 })
}

/// The memo that is sent with an output.
pub open spec fn sent_memo(info: SaplingOutputInfo) -> Seq<u8> {
    match info.memo() {
        Some(memo) => memo@,
        None => no_memo(),
    }
}

/// The description holds what the protocol makes of the note and the memo, by way
/// of this encryption and its ephemeral secret key. The generator is in the state `before`
/// at first. The encryption is set up with it, then the outgoing plaintext is encrypted
/// with it, and it is in the state `after` then.
pub open spec fn encrypted<N: Protocol>(
    before: StdRng,
    info: SaplingOutputInfo,
    description: OutputDescription<Output>,
    encryptor: N::NoteEncryption,
    esk: Fr,
    after: StdRng,
) -> bool {
    &&& exists|memo: [u8; 512], between: StdRng|
        {
            &&& memo@ == sent_memo(info)
            &&& #[trigger] encryption_drawn::<N>(
                before,
                info.ovk(),
                info.note(),
                memo,
                encryptor,
                between,
            )
            &&& out_ciphertext_drawn::<N>(
                between,
                encryptor,
                description.cv,
                description.cmu,
                description.out_ciphertext,
                after,
            )
        }
    &&& call_ensures(N::esk, (&encryptor,), esk)
    &&& call_ensures(N::epk, (&encryptor,), description.ephemeral_key)
    &&& call_ensures(N::encrypt_note_plaintext, (&encryptor,), description.enc_ciphertext)
}

/// `circuit` is what the prover makes of this output and the ephemeral secret key.
pub open spec fn output_circuit_prepared<N: Protocol, OP: OutputProver>(
    info: SaplingOutputInfo,
    esk: Fr,
    circuit: Output,
) -> bool {
    exists|rcm: Fr|
        call_ensures(N::rcm, (&info.note(),), rcm) && #[trigger] call_ensures(
            OP::prepare_circuit,
            (esk, info.note().recipient, rcm, info.note().value, info.rcv()),
            circuit,
        )
}

/// The description is that of this output, with its ciphertexts and circuit. The generator
/// is in the state `before` at first and in the state `after` then.
pub open spec fn output_built<N: Protocol, OP: OutputProver>(
    before: StdRng,
    info: SaplingOutputInfo,
    description: OutputDescription<Output>,
    after: StdRng,
) -> bool {
    &&& description.cv@ == combination(info.note().value@ as int, info.rcv()@ as int)
    &&& call_ensures(N::cmu, (&info.note(),), description.cmu)
    &&& exists|encryptor: N::NoteEncryption, esk: Fr| #[trigger]
        encrypted::<N>(before, info, description, encryptor, esk, after)
            && output_circuit_prepared::<N, OP>(info, esk, description.zkproof)
}

/// The description is that of this output, with whatever generator it was made.
pub open spec fn describes_output<N: Protocol, OP: OutputProver>(
    info: SaplingOutputInfo,
    description: OutputDescription<Output>,
) -> bool {
    exists|before: StdRng, after: StdRng| #[trigger]
        output_built::<N, OP>(before, info, description, after)
}

} // verus!
