//! Notes, where they stand in the commitment tree, and what the protocol computes
//! from them.

use crate::keys::{NullifierDerivingKey, OutgoingViewingKey};
use crate::random::{bytes_drawn, random_bytes, Drawn};
use crate::scalar::{scalar_drawn, Fr};
use crate::value::{NoteValue, ValueCommitment};
use rand::rngs::StdRng;
use vstd::prelude::*;

verus! {

/// An element of the field that commitments and tree roots lie in. It is opaque.
#[verifier::external_type_specification]
#[verifier::external_body]
pub struct ExBaseFieldElement(bls12_381::Scalar);

/// The `PartialEq` of `bls12_381::Scalar`, which compares the four limbs of the two
/// reduced values.
#[verifier::external_body]
pub(crate) fn same_element(a: &bls12_381::Scalar, b: &bls12_381::Scalar) -> (same: bool)
    ensures
        same == (*a == *b),
{
    a == b
}

/// Distinguishes the addresses of one viewing key.
#[derive(Clone, Copy, Debug, PartialEq, Eq)]
pub struct Diversifier(pub [u8; 11]);

/// An incoming viewing key.
#[derive(Clone, Copy, Debug)]
pub struct SaplingIvk(pub Fr);

/// An address that a note can be sent to.
#[derive(Clone, Copy, Debug, PartialEq, Eq)]
pub struct PaymentAddress {
    pub diversifier: Diversifier,
    pub pk_d: [u8; 32],
}

/// Whether notes derive their randomness as ZIP 212 prescribes.
#[derive(Clone, Copy, Debug, PartialEq, Eq)]
pub enum Zip212Enforcement {
    Off,
    GracePeriod,
    On,
}

/// The randomness of a note.
#[derive(Clone, Copy, Debug)]
pub enum Rseed {
    /// The commitment trapdoor itself.
    BeforeZip212(Fr),
    /// The seed from which the commitment trapdoor is derived.
    AfterZip212([u8; 32]),
}

/// Draws the randomness of a note, in the form that the enforcement asks for.
pub(crate) fn generate_random_rseed(
    zip212_enforcement: Zip212Enforcement,
    rng: &mut StdRng,
) -> (rseed: Rseed)
    ensures
        rseed_drawn(*old(rng), zip212_enforcement, rseed, *final(rng)),
        rseed_follows(zip212_enforcement, rseed),
        match rseed {
            Rseed::BeforeZip212(rcm) => zip212_enforcement == Zip212Enforcement::Off
                && scalar_drawn(*old(rng), rcm, *final(rng)),
            Rseed::AfterZip212(seed) => zip212_enforcement != Zip212Enforcement::Off
                && bytes_drawn(*old(rng), seed, *final(rng)),
        },
{
    match zip212_enforcement {
        Zip212Enforcement::Off => Rseed::BeforeZip212(Fr::random(rng)),
        Zip212Enforcement::GracePeriod | Zip212Enforcement::On => Rseed::AfterZip212(
            random_bytes::<32>(rng),
        ),
    }
}

/// A generator in the state `before` gives this randomness, and is in the state `after`
/// then: a trapdoor where the enforcement is off, and else a seed.
pub open spec fn rseed_drawn(
    before: StdRng,
    zip212_enforcement: Zip212Enforcement,
    rseed: Rseed,
    after: StdRng,
) -> bool {
    match rseed {
        Rseed::BeforeZip212(rcm) => zip212_enforcement is Off && scalar_drawn(before, rcm, after),
        Rseed::AfterZip212(seed) => !(zip212_enforcement is Off) && bytes_drawn(
            before,
            seed,
            after,
        ),
    }
}

/// A note's randomness is a trapdoor that the generator gave where the enforcement is off,
/// and 32 bytes that it gave in the grace period and from then on.
pub proof fn law_rseed_form(
    before: StdRng,
    zip212_enforcement: Zip212Enforcement,
    rseed: Rseed,
    after: StdRng,
)
    ensures
        rseed_follows(zip212_enforcement, rseed) <==> (rseed is BeforeZip212)
            == (zip212_enforcement == Zip212Enforcement::Off),
        rseed_drawn(before, zip212_enforcement, rseed, after) ==> match rseed {
            Rseed::BeforeZip212(rcm) => zip212_enforcement == Zip212Enforcement::Off
                && scalar_drawn(before, rcm, after),
            Rseed::AfterZip212(seed) => zip212_enforcement != Zip212Enforcement::Off
                && bytes_drawn(before, seed, after),
        },
{
}

/// The randomness has the form that the enforcement asks for: a seed, unless it is
/// off.
pub open spec fn rseed_follows(zip212_enforcement: Zip212Enforcement, rseed: Rseed) -> bool {
    rseed is BeforeZip212 <==> zip212_enforcement is Off
}

/// A note: an amount of value that belongs to an address.
#[derive(Clone, Copy, Debug)]
pub struct Note {
    pub recipient: PaymentAddress,
    pub value: NoteValue,
    pub rseed: Rseed,
}

/// A note commitment, as it is entered into the commitment tree.
#[derive(Clone, Copy, Debug, PartialEq, Eq)]
pub struct ExtractedNoteCommitment(pub [u8; 32]);

/// What a spend reveals so that its note cannot be spent again.
#[derive(Clone, Copy, Debug, PartialEq, Eq)]
pub struct Nullifier(pub [u8; 32]);

/// The path from a note commitment to the root of the commitment tree.
#[derive(Clone, Debug)]
pub struct MerklePath {
    /// The siblings along the path, from the leaf up.
    pub auth_path: Vec<[u8; 32]>,
    /// The position of the commitment among the leaves.
    pub position: u64,
}

/// The functions of the Sapling protocol that a bundle is built with and that rest
/// on its hash functions and its note cipher.
///
/// Nothing is demanded of an implementation: the contracts of the builder fix what
/// is handed to each function and where its result goes.
pub trait Protocol {
    /// A note on its way to being encrypted.
    type NoteEncryption;

    /// The commitment of a note.
    fn cmu(note: &Note) -> ExtractedNoteCommitment;

    /// The commitment trapdoor of a note.
    fn rcm(note: &Note) -> Fr;

    /// The nullifier of a note at a position of the commitment tree.
    fn nf(note: &Note, nk: &NullifierDerivingKey, position: u64) -> Nullifier;

    /// The root that a path leads to from a note commitment.
    fn root(merkle_path: &MerklePath, cmu: &ExtractedNoteCommitment) -> bls12_381::Scalar;

    /// The address of a viewing key with this diversifier. Not every diversifier
    /// has one.
    fn to_payment_address(ivk: &SaplingIvk, diversifier: Diversifier) -> Option<PaymentAddress>;

    /// Sets up the encryption of a note and its memo.
    fn note_encryption(
        ovk: Option<OutgoingViewingKey>,
        note: Note,
        memo: [u8; 512],
        rng: &mut StdRng,
    ) -> Self::NoteEncryption;

    /// The ephemeral secret key of an encryption.
    fn esk(encryption: &Self::NoteEncryption) -> Fr;

    /// The encoding of the ephemeral public key of an encryption.
    fn epk(encryption: &Self::NoteEncryption) -> [u8; 32];

    /// The note plaintext, encrypted to the recipient.
    fn encrypt_note_plaintext(encryption: &Self::NoteEncryption) -> [u8; 580];

    /// The outgoing plaintext, encrypted to the sender.
    fn encrypt_outgoing_plaintext(
        encryption: &Self::NoteEncryption,
        cv: &ValueCommitment,
        cmu: &ExtractedNoteCommitment,
        rng: &mut StdRng,
    ) -> [u8; 80];
}

/// Sets up the encryption of a note and its memo. The protocol works on the generator that
/// is handed over, which comes back with the encryption.
pub fn draw_encryption<N: Protocol>(
    ovk: Option<OutgoingViewingKey>,
    note: Note,
    memo: [u8; 512],
    rng: StdRng,
) -> (drawn: Drawn<N::NoteEncryption>)
    ensures
        exists|used: &mut StdRng|
            *used == rng && *final(used) == drawn.rng && #[trigger] call_ensures(
                N::note_encryption,
                (ovk, note, memo, used),
                drawn.value,
            ),
{
    let mut generator = rng;
    let value = N::note_encryption(ovk, note, memo, &mut generator);
    let drawn = Drawn { value, rng: generator };
    proof {
        let used = choose|used: &mut StdRng|
            *used == rng && *final(used) == generator && #[trigger] call_ensures(
                N::note_encryption,
                (ovk, note, memo, used),
                value,
            );
        assert(call_ensures(N::note_encryption, (ovk, note, memo, used), drawn.value));
    }
    drawn
}

/// With a generator in the state `before`, the protocol sets up this encryption of the note
/// and the memo, and leaves the generator in the state `after`.
pub open spec fn encryption_drawn<N: Protocol>(
    before: StdRng,
    ovk: Option<OutgoingViewingKey>,
    note: Note,
    memo: [u8; 512],
    encryption: N::NoteEncryption,
    after: StdRng,
) -> bool {
    call_ensures(
        draw_encryption::<N>,
        (ovk, note, memo, before),
        Drawn { value: encryption, rng: after },
    )
}

/// Encrypts the outgoing plaintext. The protocol works on the generator that is handed over,
/// which comes back with the ciphertext.
pub fn draw_out_ciphertext<N: Protocol>(
    encryption: &N::NoteEncryption,
    cv: &ValueCommitment,
    cmu: &ExtractedNoteCommitment,
    rng: StdRng,
) -> (drawn: Drawn<[u8; 80]>)
    ensures
        exists|used: &mut StdRng|
            *used == rng && *final(used) == drawn.rng && #[trigger] call_ensures(
                N::encrypt_outgoing_plaintext,
                (encryption, cv, cmu, used),
                drawn.value,
            ),
{
    let mut generator = rng;
    let value = N::encrypt_outgoing_plaintext(encryption, cv, cmu, &mut generator);
    let drawn = Drawn { value, rng: generator };
    proof {
        let used = choose|used: &mut StdRng|
            *used == rng && *final(used) == generator && #[trigger] call_ensures(
                N::encrypt_outgoing_plaintext,
                (encryption, cv, cmu, used),
                value,
            );
        assert(call_ensures(
            N::encrypt_outgoing_plaintext,
            (encryption, cv, cmu, used),
            drawn.value,
        ));
    }
    drawn
}

/// With a generator in the state `before`, the protocol gives this ciphertext of the
/// outgoing plaintext, and leaves the generator in the state `after`.
pub open spec fn out_ciphertext_drawn<N: Protocol>(
    before: StdRng,
    encryption: N::NoteEncryption,
    cv: ValueCommitment,
    cmu: ExtractedNoteCommitment,
    ciphertext: [u8; 80],
    after: StdRng,
) -> bool {
    call_ensures(
        draw_out_ciphertext::<N>,
        (&encryption, &cv, &cmu, before),
        Drawn { value: ciphertext, rng: after },
    )
}

} // verus!
