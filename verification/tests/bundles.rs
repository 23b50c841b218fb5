//! Bundles from the first spend that is added to the last signature.

use group::ff::Field;
use rand::rngs::StdRng;
use rand::seq::SliceRandom;
use rand::{RngCore, SeedableRng};
use sapling_builder::assembly::{compute_bvk, UnauthorizedBundle};
use sapling_builder::builder::{SaplingBuilder, SaplingMetadata, MIN_SHIELDED_OUTPUTS};
use sapling_builder::bundle::{Authorized, Bundle};
use sapling_builder::error::Error;
use sapling_builder::in_progress::{
    InProgress, MaybeSigned, PartiallyAuthorized, Proven, Unsigned,
};
use sapling_builder::keys::{
    ExpandedSpendingKey, ExtendedSpendingKey, NullifierDerivingKey, OutgoingViewingKey,
    ProofGenerationKey, SpendAuthorizingKey,
};
use sapling_builder::note::{
    Diversifier, ExtractedNoteCommitment, MerklePath, Note, Nullifier, PaymentAddress, Protocol,
    Rseed, SaplingIvk, Zip212Enforcement,
};
use sapling_builder::prover::{
    GrothProofBytes, Output, OutputProver, Spend, SpendProver, ValueCommitmentOpening,
};
use sapling_builder::proving::ProverProgress;
use sapling_builder::scalar::Fr;
use sapling_builder::signature::{Signature, SpendAuth};
use sapling_builder::value::{NoteValue, ValueCommitTrapdoor, ValueCommitment};
use std::sync::mpsc::channel;

/// A protocol whose results show what they were made from.
struct Plain;

struct PlainEncryption {
    ovk: Option<OutgoingViewingKey>,
    note: Note,
    memo: [u8; 512],
}

fn note_bytes(note: &Note) -> [u8; 32] {
    let mut bytes = [0u8; 32];
    bytes[..8].copy_from_slice(&note.value.inner().to_le_bytes());
    bytes[8..19].copy_from_slice(&note.recipient.diversifier.0);
    bytes
}

impl Protocol for Plain {
    type NoteEncryption = PlainEncryption;

    fn cmu(note: &Note) -> ExtractedNoteCommitment {
        ExtractedNoteCommitment(note_bytes(note))
    }

    fn rcm(note: &Note) -> Fr {
        match note.rseed {
            Rseed::BeforeZip212(rcm) => rcm,
            Rseed::AfterZip212(seed) => fr(u64::from(seed[0])),
        }
    }

    fn nf(note: &Note, nk: &NullifierDerivingKey, position: u64) -> Nullifier {
        let mut bytes = nk.to_bytes();
        bytes[0] ^= note.value.inner() as u8;
        bytes[1] ^= position as u8;
        Nullifier(bytes)
    }

    fn root(merkle_path: &MerklePath, _: &ExtractedNoteCommitment) -> bls12_381::Scalar {
        bls12_381::Scalar::from(u64::from(merkle_path.auth_path[0][0]))
    }

    fn to_payment_address(ivk: &SaplingIvk, diversifier: Diversifier) -> Option<PaymentAddress> {
        // Half of the diversifiers have no address.
        if diversifier.0[0] % 2 == 0 {
            Some(PaymentAddress { diversifier, pk_d: ivk.0.to_bytes() })
        } else {
            None
        }
    }

    fn note_encryption(
        ovk: Option<OutgoingViewingKey>,
        note: Note,
        memo: [u8; 512],
        _: &mut StdRng,
    ) -> PlainEncryption {
        PlainEncryption { ovk, note, memo }
    }

    fn esk(encryption: &PlainEncryption) -> Fr {
        fr(encryption.note.value.inner() % 1000 + 1)
    }

    fn epk(encryption: &PlainEncryption) -> [u8; 32] {
        Self::esk(encryption).to_bytes()
    }

    fn encrypt_note_plaintext(encryption: &PlainEncryption) -> [u8; 580] {
        let mut bytes = [0u8; 580];
        bytes[..512].copy_from_slice(&encryption.memo);
        bytes[512..544].copy_from_slice(&note_bytes(&encryption.note));
        bytes
    }

    fn encrypt_outgoing_plaintext(
        encryption: &PlainEncryption,
        cv: &ValueCommitment,
        cmu: &ExtractedNoteCommitment,
        _: &mut StdRng,
    ) -> [u8; 80] {
        let mut bytes = [0u8; 80];
        bytes[..32].copy_from_slice(&cv.to_bytes());
        bytes[32..64].copy_from_slice(&cmu.0);
        bytes[64] = match encryption.ovk {
            Some(ovk) => ovk.0[0],
            None => 0xff,
        };
        bytes
    }
}

/// A value for which there is no circuit.
const UNPROVABLE: u64 = 666;

/// A prover whose proofs show the value that they are for.
struct PlainProver;

impl SpendProver for PlainProver {
    type Proof = u64;

    fn prepare_circuit(
        proof_generation_key: ProofGenerationKey,
        diversifier: Diversifier,
        _: Rseed,
        value: NoteValue,
        alpha: Fr,
        rcv: ValueCommitTrapdoor,
        anchor: bls12_381::Scalar,
        _: MerklePath,
    ) -> Option<Spend> {
        if value.inner() == UNPROVABLE {
            return None;
        }
        Some(Spend {
            value_commitment_opening: Some(ValueCommitmentOpening {
                value,
                randomness: rcv.inner(),
            }),
            proof_generation_key: Some(proof_generation_key),
            payment_address: Some(PaymentAddress { diversifier, pk_d: [0; 32] }),
            commitment_randomness: None,
            ar: Some(alpha),
            auth_path: vec![],
            anchor: Some(anchor),
        })
    }

    fn create_proof(&self, circuit: Spend, _: &mut StdRng) -> u64 {
        circuit.value_commitment_opening.unwrap().value.inner()
    }

    fn encode_proof(proof: u64) -> GrothProofBytes {
        let mut bytes = [1u8; 192];
        bytes[..8].copy_from_slice(&proof.to_le_bytes());
        bytes
    }
}

impl OutputProver for PlainProver {
    type Proof = u64;

    fn prepare_circuit(
        esk: Fr,
        payment_address: PaymentAddress,
        rcm: Fr,
        value: NoteValue,
        rcv: ValueCommitTrapdoor,
    ) -> Output {
        Output {
            value_commitment_opening: Some(ValueCommitmentOpening {
                value,
                randomness: rcv.inner(),
            }),
            payment_address: Some(payment_address),
            commitment_randomness: Some(rcm),
            esk: Some(esk),
        }
    }

    fn create_proof(&self, circuit: Output, _: &mut StdRng) -> u64 {
        circuit.value_commitment_opening.unwrap().value.inner()
    }

    fn encode_proof(proof: u64) -> GrothProofBytes {
        let mut bytes = [2u8; 192];
        bytes[..8].copy_from_slice(&proof.to_le_bytes());
        bytes
    }
}

fn fr(value: u64) -> Fr {
    Fr::from_bytes(&jubjub::Fr::from(value).to_bytes()).unwrap()
}

fn extsk(seed: u64) -> ExtendedSpendingKey {
    ExtendedSpendingKey {
        expsk: ExpandedSpendingKey {
            ask: SpendAuthorizingKey::from_scalar(fr(1000 + seed)),
            nsk: fr(2000 + seed),
            ovk: OutgoingViewingKey([seed as u8; 32]),
        },
    }
}

fn address(tag: u8) -> PaymentAddress {
    PaymentAddress { diversifier: Diversifier([tag; 11]), pk_d: [tag; 32] }
}

fn note(value: u64) -> Note {
    Note {
        recipient: address(4),
        value: NoteValue::from_raw(value),
        rseed: Rseed::AfterZip212([5; 32]),
    }
}

fn path(root: u8, position: u64) -> MerklePath {
    MerklePath { auth_path: vec![[root; 32]], position }
}

fn rng(seed: u64) -> StdRng {
    StdRng::seed_from_u64(seed)
}

fn builder() -> SaplingBuilder {
    SaplingBuilder::new(Zip212Enforcement::On)
}

fn spend(builder: &mut SaplingBuilder, rng: &mut StdRng, key: u64, value: u64) {
    builder.add_spend::<Plain>(rng, &extsk(key), note(value), path(9, value)).unwrap();
}

fn send(builder: &mut SaplingBuilder, rng: &mut StdRng, tag: u8, value: u64) {
    builder.add_output(rng, None, address(tag), NoteValue::from_raw(value), None).unwrap();
}

fn build(builder: SaplingBuilder, rng: &mut StdRng) -> (UnauthorizedBundle<i64>, SaplingMetadata) {
    builder.build::<Plain, PlainProver, PlainProver, i64>(rng).unwrap().unwrap()
}

fn spent_value(circuit: &Spend) -> u64 {
    circuit.value_commitment_opening.unwrap().value.inner()
}

fn sent_value(circuit: &Output) -> u64 {
    circuit.value_commitment_opening.unwrap().value.inner()
}

/// Two spends with different keys and one output.
fn two_spends(rng: &mut StdRng) -> UnauthorizedBundle<i64> {
    let mut b = builder();
    spend(&mut b, rng, 1, 30);
    spend(&mut b, rng, 2, 12);
    send(&mut b, rng, 6, 40);
    build(b, rng).0
}

fn prove(
    bundle: UnauthorizedBundle<i64>,
    rng: &mut StdRng,
) -> Bundle<InProgress<Proven, Unsigned>, i64> {
    bundle.create_proofs(&PlainProver, &PlainProver, rng, ())
}

/// The signature that the holder of this key makes for a spend, by its randomizer.
fn external_signature(key: u64, alpha: &Fr, sighash: &[u8; 32]) -> Signature<SpendAuth> {
    let sk: redjubjub::SigningKey<redjubjub::SpendAuth> =
        fr(1000 + key).to_bytes().try_into().unwrap();
    let alpha = jubjub::Fr::from_bytes(&alpha.to_bytes()).unwrap();
    let bytes: [u8; 64] = sk.randomize(&alpha).sign(rng(99), sighash).into();
    Signature::from(bytes)
}

fn assert_verifies(bundle: &Bundle<Authorized, i64>, sighash: &[u8; 32]) {
    for spend in &bundle.shielded_spends {
        let rk: redjubjub::VerificationKey<redjubjub::SpendAuth> =
            spend.rk.to_bytes().try_into().unwrap();
        let signature = redjubjub::Signature::from(spend.spend_auth_sig.to_bytes());
        assert!(rk.verify(sighash, &signature).is_ok());
        assert!(rk.verify(&[0xee; 32], &signature).is_err());
    }
    assert!(bundle.binding_signature_verifies(bundle.value_balance, sighash));
    assert!(!bundle.binding_signature_verifies(bundle.value_balance + 1, sighash));
    assert!(!bundle.binding_signature_verifies(bundle.value_balance, &[0xee; 32]));
    let bvk = compute_bvk::<Authorized>(
        &bundle.shielded_spends,
        &bundle.shielded_outputs,
        bundle.value_balance,
    );
    let bvk: redjubjub::VerificationKey<redjubjub::Binding> = bvk.to_bytes().try_into().unwrap();
    let signature =
        redjubjub::Signature::from(bundle.authorization.binding_sig.to_bytes());
    assert!(bvk.verify(sighash, &signature).is_ok());
    assert!(bvk.verify(&[0xee; 32], &signature).is_err());
}

#[test]
fn new_builder_is_empty() {
    let b = builder();
    assert!(b.inputs().is_empty());
    assert!(b.outputs().is_empty());
    assert_eq!(b.bundle_output_count(), 0);
    assert_eq!(b.value_balance::<i64>(), 0);
    assert!(b
        .build::<Plain, PlainProver, PlainProver, i64>(&mut rng(0))
        .unwrap()
        .is_none());
}

#[test]
fn value_balance_is_that_of_spends_and_outputs() {
    let mut r = rng(1);
    let mut b = builder();
    spend(&mut b, &mut r, 1, 100);
    assert_eq!(b.value_balance::<i64>(), 100);
    send(&mut b, &mut r, 6, 30);
    send(&mut b, &mut r, 7, 80);
    assert_eq!(b.value_balance::<i64>(), -10);
    let inputs: Vec<u64> = b.inputs().iter().map(|i| i.value().inner()).collect();
    let outputs: Vec<u64> = b.outputs().iter().map(|o| o.value().inner()).collect();
    assert_eq!(inputs, vec![100]);
    assert_eq!(outputs, vec![30, 80]);
    assert_eq!(b.outputs()[1].recipient(), address(7));
    assert_eq!(build(b, &mut r).0.value_balance, -10);
}

#[test]
fn other_anchor_is_refused_without_a_trace() {
    let mut r = rng(2);
    let mut b = builder();
    spend(&mut b, &mut r, 1, 10);
    let refused = b.add_spend::<Plain>(&mut r, &extsk(1), note(5), path(8, 0));
    assert_eq!(refused, Err(Error::AnchorMismatch));
    assert_eq!(b.inputs().len(), 1);
    assert_eq!(b.value_balance::<i64>(), 10);
    // The anchor of the first spend still goes.
    spend(&mut b, &mut r, 1, 5);
    assert_eq!(b.value_balance::<i64>(), 15);
    let (bundle, _) = build(b, &mut r);
    for description in &bundle.shielded_spends {
        assert_eq!(description.anchor, bls12_381::Scalar::from(9));
    }
}

#[test]
fn checks_answer_for_given_roots_and_values() {
    let mut r = rng(35);
    let root = bls12_381::Scalar::from(9);
    let limit = i64::MAX as u64;
    let mut b = builder();
    assert_eq!(b.check_spend(&root, NoteValue::from_raw(limit)).unwrap().to_i64(), Some(i64::MAX));
    assert_eq!(b.check_spend(&root, NoteValue::from_raw(limit + 1)), Err(Error::InvalidAmount));
    assert_eq!(b.check_output(NoteValue::from_raw(limit + 1)).unwrap().to_i64(), Some(i64::MIN));
    assert_eq!(b.check_output(NoteValue::from_raw(limit + 2)), Err(Error::InvalidAmount));
    spend(&mut b, &mut r, 1, 7);
    assert_eq!(b.check_spend(&root, NoteValue::from_raw(3)).unwrap().to_i64(), Some(10));
    assert_eq!(
        b.check_spend(&bls12_381::Scalar::from(4), NoteValue::from_raw(1)),
        Err(Error::AnchorMismatch)
    );
    assert_eq!(b.value_balance::<i64>(), 7);
}

#[test]
fn spend_beyond_the_range_is_refused_without_a_trace() {
    let mut r = rng(3);
    let untouched = r.clone();
    let mut b = builder();
    let refused = b.add_spend::<Plain>(&mut r, &extsk(1), note(u64::MAX), path(9, 0));
    assert_eq!(refused, Err(Error::InvalidAmount));
    assert!(b.inputs().is_empty());
    assert_eq!(b.value_balance::<i64>(), 0);
    assert_eq!(b.bundle_output_count(), 0);
    assert_eq!(r, untouched);
    // Its anchor does not stay behind.
    b.add_spend::<Plain>(&mut r, &extsk(1), note(5), path(8, 0)).unwrap();
    assert_eq!(b.value_balance::<i64>(), 5);
    let (bundle, _) = build(b, &mut r);
    assert_eq!(bundle.shielded_spends[0].anchor, bls12_381::Scalar::from(8));
}

#[test]
fn output_beyond_the_range_is_refused_without_a_trace() {
    let mut r = rng(4);
    let mut b = builder();
    let refused = b.add_output(&mut r, None, address(6), NoteValue::from_raw(u64::MAX), None);
    assert_eq!(refused, Err(Error::InvalidAmount));
    assert!(b.outputs().is_empty());
    assert_eq!(b.value_balance::<i64>(), 0);
    assert_eq!(b.try_value_balance::<i64>(), Ok(0));
    // The least balance is in range.
    send(&mut b, &mut r, 6, 1 << 63);
    assert_eq!(b.value_balance::<i64>(), i64::MIN);
    assert_eq!(build(b, &mut r).0.value_balance, i64::MIN);
}

#[test]
fn balance_that_the_amount_refuses_is_an_error() {
    let mut r = rng(5);
    let mut b = builder();
    send(&mut b, &mut r, 6, 5);
    assert_eq!(b.try_value_balance::<i64>(), Ok(-5));
    assert_eq!(b.try_value_balance::<u32>(), Err(Error::InvalidAmount));
    assert_eq!(
        b.build::<Plain, PlainProver, PlainProver, u32>(&mut r).err(),
        Some(Error::InvalidAmount)
    );
}

#[test]
fn spend_without_a_circuit_is_an_error() {
    let mut r = rng(6);
    let mut b = builder();
    spend(&mut b, &mut r, 1, 3);
    spend(&mut b, &mut r, 1, UNPROVABLE);
    assert_eq!(
        b.build::<Plain, PlainProver, PlainProver, i64>(&mut r).err(),
        Some(Error::SpendProof)
    );
}

#[test]
fn outputs_are_padded_where_there_are_spends() {
    for added in 0..4u8 {
        let mut r = rng(7);
        let mut b = builder();
        spend(&mut b, &mut r, 1, 50);
        for tag in 0..added {
            send(&mut b, &mut r, tag, 1 + u64::from(tag));
        }
        let announced = b.bundle_output_count();
        assert_eq!(announced, std::cmp::max(MIN_SHIELDED_OUTPUTS, usize::from(added)));
        let (bundle, metadata) = build(b, &mut r);
        assert_eq!(bundle.shielded_outputs.len(), announced);
        // What is not among the added ones is a dummy.
        let placed: Vec<usize> =
            (0..usize::from(added)).map(|n| metadata.output_index(n).unwrap()).collect();
        for (i, description) in bundle.shielded_outputs.iter().enumerate() {
            if !placed.contains(&i) {
                assert_eq!(sent_value(&description.zkproof), 0);
                assert_eq!(description.out_ciphertext[64], 0xff);
                assert_eq!(description.enc_ciphertext[0], 0xf6);
                let to = description.zkproof.payment_address.unwrap();
                assert_eq!(to.diversifier.0[0] % 2, 0);
            }
        }
    }
}

#[test]
fn outputs_alone_are_not_padded() {
    let mut r = rng(8);
    let mut b = builder();
    send(&mut b, &mut r, 6, 5);
    assert_eq!(b.bundle_output_count(), 1);
    let (bundle, metadata) = build(b, &mut r);
    assert_eq!(bundle.shielded_outputs.len(), 1);
    assert!(bundle.shielded_spends.is_empty());
    assert_eq!(metadata.output_index(0), Some(0));
    assert_eq!(metadata.spend_index(0), None);
}

#[test]
fn metadata_locates_what_was_added() {
    let mut moved = false;
    for seed in 0..8 {
        let mut r = rng(100 + seed);
        let mut b = builder();
        for value in 1..=6u64 {
            spend(&mut b, &mut r, value, 10 * value);
            send(&mut b, &mut r, value as u8, value);
        }
        let (bundle, metadata) = build(b, &mut r);
        assert_eq!(bundle.shielded_spends.len(), 6);
        assert_eq!(bundle.shielded_outputs.len(), 6);
        let mut spend_places = vec![];
        let mut output_places = vec![];
        for n in 0..6usize {
            let value = 1 + n as u64;
            let i = metadata.spend_index(n).unwrap();
            assert_eq!(spent_value(&bundle.shielded_spends[i].zkproof), 10 * value);
            spend_places.push(i);
            let j = metadata.output_index(n).unwrap();
            assert_eq!(sent_value(&bundle.shielded_outputs[j].zkproof), value);
            output_places.push(j);
        }
        assert_eq!(metadata.spend_index(6), None);
        assert_eq!(metadata.output_index(6), None);
        moved = moved || spend_places != vec![0, 1, 2, 3, 4, 5];
        spend_places.sort();
        output_places.sort();
        assert_eq!(spend_places, vec![0, 1, 2, 3, 4, 5]);
        assert_eq!(output_places, vec![0, 1, 2, 3, 4, 5]);
    }
    assert!(moved);
}

#[test]
fn empty_metadata_locates_nothing() {
    let metadata = SaplingMetadata::empty();
    assert_eq!(metadata.spend_index(0), None);
    assert_eq!(metadata.output_index(0), None);
}

#[test]
fn spend_is_described_as_it_was_added() {
    let mut r = rng(9);
    let mut b = builder();
    spend(&mut b, &mut r, 3, 17);
    let (bundle, _) = build(b, &mut r);
    let description = &bundle.shielded_spends[0];
    let circuit = &description.zkproof;
    let opening = circuit.value_commitment_opening.unwrap();
    let key = extsk(3).expsk.proof_generation_key();
    let cv = ValueCommitment::derive(
        NoteValue::from_raw(17),
        &ValueCommitTrapdoor::from_scalar(opening.randomness),
    );
    assert_eq!(description.cv, cv);
    assert_eq!(description.anchor, bls12_381::Scalar::from(9));
    assert_eq!(circuit.anchor, Some(bls12_381::Scalar::from(9)));
    assert_eq!(
        description.nullifier,
        Plain::nf(&note(17), &key.to_viewing_key().nk, 17)
    );
    assert_eq!(
        description.rk.to_bytes(),
        key.ak.randomize(&circuit.ar.unwrap()).to_bytes()
    );
    assert!(circuit.proof_generation_key.unwrap().ak == key.ak);
    assert_eq!(circuit.proof_generation_key.unwrap().nsk, fr(2003));
}

#[test]
fn description_follows_from_nullifier_and_circuit() {
    let mut r = rng(10);
    let mut b = builder();
    spend(&mut b, &mut r, 3, 17);
    let info = b.inputs()[0].clone();
    let anchor = bls12_381::Scalar::from(9);
    assert_eq!(
        info.describe(anchor, Nullifier([1; 32]), None).err(),
        Some(Error::SpendProof)
    );
    let (bundle, _) = build(b, &mut r);
    let built = &bundle.shielded_spends[0];
    let described =
        info.describe(anchor, Nullifier([1; 32]), Some(built.zkproof.clone())).unwrap();
    assert_eq!(described.cv, built.cv);
    assert_eq!(described.rk, built.rk);
    assert_eq!(described.nullifier, Nullifier([1; 32]));
}

#[test]
fn output_is_described_as_it_was_added() {
    let mut r = rng(11);
    let mut b = builder();
    let memo = [7u8; 512];
    b.add_output(
        &mut r,
        Some(OutgoingViewingKey([3; 32])),
        address(6),
        NoteValue::from_raw(25),
        Some(memo),
    )
    .unwrap();
    assert_eq!(b.outputs()[0].memo_or_default(), memo);
    let (bundle, _) = build(b, &mut r);
    let description = &bundle.shielded_outputs[0];
    let circuit = &description.zkproof;
    let opening = circuit.value_commitment_opening.unwrap();
    let cv = ValueCommitment::derive(
        NoteValue::from_raw(25),
        &ValueCommitTrapdoor::from_scalar(opening.randomness),
    );
    assert_eq!(description.cv, cv);
    assert_eq!(&description.cmu.0[..8], &25u64.to_le_bytes()[..]);
    assert_eq!(description.ephemeral_key, fr(26).to_bytes());
    assert_eq!(circuit.esk, Some(fr(26)));
    assert_eq!(circuit.payment_address, Some(address(6)));
    assert_eq!(&description.enc_ciphertext[..512], &memo[..]);
    assert_eq!(&description.enc_ciphertext[512..544], &description.cmu.0[..]);
    assert_eq!(&description.out_ciphertext[..32], &cv.to_bytes()[..]);
    assert_eq!(&description.out_ciphertext[32..64], &description.cmu.0[..]);
    assert_eq!(description.out_ciphertext[64], 3);
}

#[test]
fn absent_memo_is_sent_as_no_memo() {
    let mut r = rng(12);
    let mut b = builder();
    send(&mut b, &mut r, 6, 1);
    let mut expected = [0u8; 512];
    expected[0] = 0xf6;
    assert_eq!(b.outputs()[0].memo_or_default(), expected);
}

#[test]
fn randomness_is_fresh_for_every_spend() {
    let mut r = rng(13);
    let mut b = builder();
    spend(&mut b, &mut r, 1, 5);
    spend(&mut b, &mut r, 1, 5);
    let (bundle, _) = build(b, &mut r);
    let first = &bundle.shielded_spends[0];
    let second = &bundle.shielded_spends[1];
    assert_ne!(first.cv, second.cv);
    assert_ne!(first.rk, second.rk);
    assert_ne!(first.zkproof.ar, second.zkproof.ar);
}

#[test]
fn note_randomness_follows_the_enforcement() {
    for enforcement in
        [Zip212Enforcement::Off, Zip212Enforcement::GracePeriod, Zip212Enforcement::On]
    {
        let mut r = rng(14);
        let mut b = SaplingBuilder::new(enforcement);
        send(&mut b, &mut r, 6, 1);
        let (bundle, _) = build(b, &mut r);
        let rcm = bundle.shielded_outputs[0].zkproof.commitment_randomness.unwrap();
        // A seed is shown by its first byte alone, a trapdoor in full.
        let short = rcm.to_bytes()[1..].iter().all(|byte| *byte == 0);
        assert_eq!(short, enforcement != Zip212Enforcement::Off);
    }
}

#[test]
fn proofs_take_the_place_of_circuits() {
    let mut r = rng(15);
    let bundle = two_spends(&mut r);
    let rks: Vec<[u8; 32]> = bundle.shielded_spends.iter().map(|s| s.rk.to_bytes()).collect();
    let spent: Vec<u64> = bundle.shielded_spends.iter().map(|s| spent_value(&s.zkproof)).collect();
    let sent: Vec<u64> = bundle.shielded_outputs.iter().map(|o| sent_value(&o.zkproof)).collect();
    let proven = prove(bundle, &mut r);
    assert_eq!(proven.value_balance, 2);
    for (i, description) in proven.shielded_spends.iter().enumerate() {
        assert_eq!(description.rk.to_bytes(), rks[i]);
        assert_eq!(description.zkproof, <PlainProver as SpendProver>::encode_proof(spent[i]));
    }
    for (i, description) in proven.shielded_outputs.iter().enumerate() {
        assert_eq!(description.zkproof, <PlainProver as OutputProver>::encode_proof(sent[i]));
    }
}

#[test]
fn progress_is_sent_after_every_proof() {
    let mut r = rng(16);
    let bundle = two_spends(&mut r);
    let (sender, receiver) = channel::<(u32, u32)>();
    bundle.create_proofs(&PlainProver, &PlainProver, &mut r, sender);
    let updates: Vec<(u32, u32)> = receiver.iter().collect();
    assert_eq!(updates, vec![(1, 4), (2, 4), (3, 4), (4, 4)]);
}

#[test]
fn progress_without_a_receiver_is_ignored() {
    let mut r = rng(17);
    let bundle = two_spends(&mut r);
    let (sender, receiver) = channel::<(u32, u32)>();
    drop(receiver);
    let proven = bundle.create_proofs(&PlainProver, &PlainProver, &mut r, sender);
    assert_eq!(proven.shielded_spends.len(), 2);
}

struct Record(Vec<(u32, u32)>);

impl ProverProgress for Record {
    fn update(&mut self, cur: u32, end: u32) {
        self.0.push((cur, end));
    }
}

#[test]
fn progress_is_passed_on_by_reference() {
    let mut r = rng(18);
    let bundle = two_spends(&mut r);
    let mut record = Record(vec![]);
    bundle.create_proofs(&PlainProver, &PlainProver, &mut r, &mut record);
    assert_eq!(record.0, vec![(1, 4), (2, 4), (3, 4), (4, 4)]);
}

#[test]
fn applied_signatures_verify() {
    let mut r = rng(19);
    let sighash = [0x5a; 32];
    let proven = prove(two_spends(&mut r), &mut r);
    let keys = [extsk(2).expsk.ask, extsk(3).expsk.ask, extsk(1).expsk.ask];
    let authorized = proven.apply_signatures(&mut r, sighash, &keys).unwrap();
    assert_eq!(authorized.value_balance, 2);
    assert_verifies(&authorized, &sighash);
}

#[test]
fn negative_balance_is_bound_too() {
    let mut r = rng(20);
    let mut b = builder();
    spend(&mut b, &mut r, 1, 30);
    send(&mut b, &mut r, 6, 500);
    let (bundle, _) = build(b, &mut r);
    let authorized = prove(bundle, &mut r)
        .apply_signatures(&mut r, [1; 32], &[extsk(1).expsk.ask])
        .unwrap();
    assert_eq!(authorized.value_balance, -470);
    assert_verifies(&authorized, &[1; 32]);
}

#[test]
fn outputs_alone_need_no_keys() {
    let mut r = rng(21);
    let mut b = builder();
    send(&mut b, &mut r, 6, 5);
    let (bundle, _) = build(b, &mut r);
    let authorized = prove(bundle, &mut r).apply_signatures(&mut r, [2; 32], &[]).unwrap();
    assert!(authorized.shielded_spends.is_empty());
    assert_verifies(&authorized, &[2; 32]);
}

#[test]
fn missing_key_is_a_missing_signature() {
    let mut r = rng(22);
    let proven = prove(two_spends(&mut r), &mut r);
    let refused = proven.apply_signatures(&mut r, [0; 32], &[extsk(1).expsk.ask]);
    assert_eq!(refused.err(), Some(Error::MissingSignatures));
}

#[test]
fn signing_step_by_step_verifies() {
    let mut r = rng(23);
    let sighash = [0x77; 32];
    let prepared = prove(two_spends(&mut r), &mut r).prepare(&mut r, sighash);
    for description in &prepared.shielded_spends {
        assert!(matches!(description.spend_auth_sig, MaybeSigned::SigningMetadata(_)));
    }
    let half = prepared.sign(&mut r, &extsk(1).expsk.ask);
    let signed = half
        .shielded_spends
        .iter()
        .filter(|s| matches!(s.spend_auth_sig, MaybeSigned::Signature(_)))
        .count();
    assert_eq!(signed, 1);
    let full = half.sign(&mut r, &extsk(2).expsk.ask);
    let before = signatures_of(&full);
    // Signing again changes nothing.
    let again = full.sign(&mut r, &extsk(1).expsk.ask);
    assert_eq!(signatures_of(&again), before);
    assert_verifies(&again.finalize().unwrap(), &sighash);
}

fn signatures_of(bundle: &Bundle<InProgress<Proven, PartiallyAuthorized>, i64>) -> Vec<[u8; 64]> {
    bundle.shielded_spends.iter().map(|s| signature_of(&s.spend_auth_sig)).collect()
}

fn signature_of(maybe: &MaybeSigned) -> [u8; 64] {
    match maybe {
        MaybeSigned::Signature(signature) => signature.to_bytes(),
        MaybeSigned::SigningMetadata(_) => panic!("not signed"),
    }
}

#[test]
fn bundle_can_be_signed_before_it_is_proven() {
    let mut r = rng(24);
    let sighash = [0x31; 32];
    let signed = two_spends(&mut r)
        .prepare(&mut r, sighash)
        .sign(&mut r, &extsk(1).expsk.ask)
        .sign(&mut r, &extsk(2).expsk.ask);
    let proven = signed.create_proofs(&PlainProver, &PlainProver, &mut r, ());
    assert_verifies(&proven.finalize().unwrap(), &sighash);
}

#[test]
fn unsigned_spend_cannot_be_finalized() {
    let mut r = rng(25);
    let prepared = prove(two_spends(&mut r), &mut r).prepare(&mut r, [0; 32]);
    let half = prepared.sign(&mut r, &extsk(2).expsk.ask);
    assert_eq!(half.finalize().err(), Some(Error::MissingSignatures));
}

#[test]
fn external_signatures_are_appended_in_any_order() {
    let mut r = rng(26);
    let sighash = [0x44; 32];
    let bundle = two_spends(&mut r);
    let signatures: Vec<Signature<SpendAuth>> = bundle
        .shielded_spends
        .iter()
        .rev()
        .map(|s| {
            let key = if spent_value(&s.zkproof) == 30 { 1 } else { 2 };
            external_signature(key, &s.zkproof.ar.unwrap(), &sighash)
        })
        .collect();
    let prepared = prove(bundle, &mut r).prepare(&mut r, sighash);
    let signed = prepared.append_signatures(&signatures).unwrap();
    assert_eq!(signature_of(&signed.shielded_spends[0].spend_auth_sig), signatures[1].to_bytes());
    assert_eq!(signature_of(&signed.shielded_spends[1].spend_auth_sig), signatures[0].to_bytes());
    assert_verifies(&signed.finalize().unwrap(), &sighash);
}

#[test]
fn appending_nothing_changes_nothing() {
    let mut r = rng(27);
    let prepared = prove(two_spends(&mut r), &mut r).prepare(&mut r, [0; 32]);
    let same = prepared.append_signatures(&[]).unwrap();
    assert_eq!(same.shielded_spends.len(), 2);
    assert_eq!(same.finalize().err(), Some(Error::MissingSignatures));
}

#[test]
fn foreign_signature_is_refused() {
    let mut r = rng(28);
    let prepared = prove(two_spends(&mut r), &mut r).prepare(&mut r, [0; 32]);
    let refused = prepared.append_signatures(&[Signature::from([0u8; 64])]);
    assert_eq!(refused.err(), Some(Error::InvalidExternalSignature));
}

#[test]
fn signature_over_another_sighash_is_refused() {
    let mut r = rng(29);
    let bundle = two_spends(&mut r);
    let first = &bundle.shielded_spends[0].zkproof;
    let key = if spent_value(first) == 30 { 1 } else { 2 };
    let signature = external_signature(key, &first.ar.unwrap(), &[0x44; 32]);
    let prepared = prove(bundle, &mut r).prepare(&mut r, [0x45; 32]);
    assert_eq!(
        prepared.append_signatures(&[signature]).err(),
        Some(Error::InvalidExternalSignature)
    );
}

#[test]
fn repeated_signature_changes_nothing() {
    let mut r = rng(30);
    let sighash = [0x44; 32];
    let bundle = two_spends(&mut r);
    let first = &bundle.shielded_spends[0].zkproof;
    let key = if spent_value(first) == 30 { 1 } else { 2 };
    let signature = external_signature(key, &first.ar.unwrap(), &sighash);
    let prepared = prove(bundle, &mut r).prepare(&mut r, sighash);
    let half = prepared.append_signatures(&[signature, signature]).unwrap();
    assert_eq!(signature_of(&half.shielded_spends[0].spend_auth_sig), signature.to_bytes());
    assert!(matches!(half.shielded_spends[1].spend_auth_sig, MaybeSigned::SigningMetadata(_)));
    let full = half.sign(&mut r, &extsk(1).expsk.ask).sign(&mut r, &extsk(2).expsk.ask);
    let again = full.append_signatures(&[signature]).unwrap();
    assert_eq!(signature_of(&again.shielded_spends[0].spend_auth_sig), signature.to_bytes());
    assert_verifies(&again.finalize().unwrap(), &sighash);
}

#[test]
fn signature_takes_the_place_of_another_for_the_same_spend() {
    let mut r = rng(36);
    let sighash = [0x44; 32];
    let bundle = two_spends(&mut r);
    let first = &bundle.shielded_spends[0].zkproof;
    let key = if spent_value(first) == 30 { 1 } else { 2 };
    let signature = external_signature(key, &first.ar.unwrap(), &sighash);
    let signed = prove(bundle, &mut r)
        .prepare(&mut r, sighash)
        .sign(&mut r, &extsk(key).expsk.ask);
    assert_ne!(signature_of(&signed.shielded_spends[0].spend_auth_sig), signature.to_bytes());
    let again = signed.append_signatures(&[signature]).unwrap();
    assert_eq!(signature_of(&again.shielded_spends[0].spend_auth_sig), signature.to_bytes());
}

#[test]
fn signing_without_a_waiting_spend_draws_nothing() {
    let mut r = rng(37);
    let prepared = prove(two_spends(&mut r), &mut r).prepare(&mut r, [0; 32]);
    let signed = prepared.sign(&mut r, &extsk(1).expsk.ask);
    let untouched = r.clone();
    let again = signed.sign(&mut r, &extsk(1).expsk.ask).sign(&mut r, &extsk(7).expsk.ask);
    assert_eq!(r, untouched);
    again.sign(&mut r, &extsk(2).expsk.ask);
    assert_ne!(r, untouched);
}

#[test]
fn applied_signatures_are_those_of_the_single_steps() {
    let sighash = [0x66; 32];
    let keys = [extsk(1).expsk.ask, extsk(2).expsk.ask];
    let mut r = rng(38);
    let mut s = rng(38);
    let at_once = prove(two_spends(&mut r), &mut r).apply_signatures(&mut r, sighash, &keys).unwrap();
    let in_steps = prove(two_spends(&mut s), &mut s)
        .prepare(&mut s, sighash)
        .sign(&mut s, &keys[0])
        .sign(&mut s, &keys[1])
        .finalize()
        .unwrap();
    assert_eq!(r, s);
    assert_eq!(at_once.authorization.binding_sig, in_steps.authorization.binding_sig);
    for (a, b) in at_once.shielded_spends.iter().zip(in_steps.shielded_spends.iter()) {
        assert_eq!(a.spend_auth_sig, b.spend_auth_sig);
        assert_eq!(a.rk, b.rk);
    }
}

#[test]
fn randomness_comes_from_the_generator_in_order() {
    let mut r = rng(39);
    let mut own = r.clone();
    let mut b = builder();
    spend(&mut b, &mut r, 1, 5);
    let alpha = jubjub::Fr::random(&mut own);
    let rcv = jubjub::Fr::random(&mut own);
    assert_eq!(r, own);
    let (bundle, _) = build(b, &mut r);
    let circuit = &bundle.shielded_spends[0].zkproof;
    assert_eq!(circuit.ar.unwrap().to_bytes(), alpha.to_bytes());
    let opening = circuit.value_commitment_opening.unwrap();
    assert_eq!(opening.randomness.to_bytes(), rcv.to_bytes());

    let mut r = rng(40);
    let mut own = r.clone();
    let mut b = SaplingBuilder::new(Zip212Enforcement::Off);
    send(&mut b, &mut r, 6, 5);
    let rcm = jubjub::Fr::random(&mut own);
    let rcv = jubjub::Fr::random(&mut own);
    assert_eq!(r, own);
    let (bundle, _) = build(b, &mut r);
    let circuit = &bundle.shielded_outputs[0].zkproof;
    assert_eq!(circuit.commitment_randomness.unwrap().to_bytes(), rcm.to_bytes());
    let opening = circuit.value_commitment_opening.unwrap();
    assert_eq!(opening.randomness.to_bytes(), rcv.to_bytes());
}

#[test]
fn dummy_takes_the_first_address_drawn() {
    for seed in 50..60 {
        let mut b = builder();
        let mut r = rng(seed);
        spend(&mut b, &mut r, 1, 5);
        send(&mut b, &mut r, 6, 2);
        let mut own = r.clone();
        let (bundle, metadata) = build(b, &mut r);
        // One spend needs no draw to be shuffled.
        let mut order = vec![0, 1];
        order.shuffle(&mut own);
        let place = metadata.output_index(0).unwrap();
        assert_eq!(order[place], 0);
        let expected = loop {
            let mut diversifier = Diversifier([0; 11]);
            own.fill_bytes(&mut diversifier.0);
            let ivk = SaplingIvk(Fr::from_bytes(&jubjub::Fr::random(&mut own).to_bytes()).unwrap());
            if let Some(address) = Plain::to_payment_address(&ivk, diversifier) {
                break address;
            }
        };
        let dummy = &bundle.shielded_outputs[1 - place].zkproof;
        assert_eq!(dummy.payment_address, Some(expected));
    }
}

#[test]
fn signature_for_two_spends_is_refused() {
    let sighash = [0x44; 32];
    let mut b = builder();
    // The same state of the generator gives both spends the same randomizer.
    spend(&mut b, &mut rng(31), 1, 30);
    spend(&mut b, &mut rng(31), 1, 31);
    let mut r = rng(32);
    let (bundle, _) = build(b, &mut r);
    let alpha = bundle.shielded_spends[0].zkproof.ar.unwrap();
    let signature = external_signature(1, &alpha, &sighash);
    let prepared = prove(bundle, &mut r).prepare(&mut r, sighash);
    assert_eq!(
        prepared.append_signatures(&[signature]).err(),
        Some(Error::DuplicateSignature)
    );
}

#[test]
fn bundle_needs_a_spend_or_an_output() {
    let mut r = rng(33);
    let bundle = two_spends(&mut r);
    assert!(Bundle::<_, i64>::from_parts(vec![], vec![], 5i64, bundle.authorization.clone())
        .is_none());
    let again = Bundle::from_parts(
        bundle.shielded_spends,
        bundle.shielded_outputs,
        bundle.value_balance,
        bundle.authorization,
    );
    assert_eq!(again.unwrap().value_balance, 2);
}

/// A protocol that draws from the generator it is handed, and shows what it drew.
struct Drawing;

struct DrawingEncryption {
    note: Note,
    drawn: [u8; 32],
}

impl Protocol for Drawing {
    type NoteEncryption = DrawingEncryption;

    fn cmu(note: &Note) -> ExtractedNoteCommitment {
        Plain::cmu(note)
    }

    fn rcm(note: &Note) -> Fr {
        Plain::rcm(note)
    }

    fn nf(note: &Note, nk: &NullifierDerivingKey, position: u64) -> Nullifier {
        Plain::nf(note, nk, position)
    }

    fn root(merkle_path: &MerklePath, cmu: &ExtractedNoteCommitment) -> bls12_381::Scalar {
        Plain::root(merkle_path, cmu)
    }

    fn to_payment_address(ivk: &SaplingIvk, diversifier: Diversifier) -> Option<PaymentAddress> {
        Plain::to_payment_address(ivk, diversifier)
    }

    fn note_encryption(
        _: Option<OutgoingViewingKey>,
        note: Note,
        _: [u8; 512],
        rng: &mut StdRng,
    ) -> DrawingEncryption {
        let mut drawn = [0u8; 32];
        rng.fill_bytes(&mut drawn);
        DrawingEncryption { note, drawn }
    }

    fn esk(encryption: &DrawingEncryption) -> Fr {
        fr(encryption.note.value.inner())
    }

    fn epk(encryption: &DrawingEncryption) -> [u8; 32] {
        encryption.drawn
    }

    fn encrypt_note_plaintext(_: &DrawingEncryption) -> [u8; 580] {
        [0; 580]
    }

    fn encrypt_outgoing_plaintext(
        _: &DrawingEncryption,
        _: &ValueCommitment,
        _: &ExtractedNoteCommitment,
        rng: &mut StdRng,
    ) -> [u8; 80] {
        let mut drawn = [0u8; 80];
        rng.fill_bytes(&mut drawn);
        drawn
    }
}

/// A prover that draws from the generator it is handed, and shows what it drew.
struct DrawingProver;

impl SpendProver for DrawingProver {
    type Proof = [u8; 192];

    fn prepare_circuit(
        proof_generation_key: ProofGenerationKey,
        diversifier: Diversifier,
        rseed: Rseed,
        value: NoteValue,
        alpha: Fr,
        rcv: ValueCommitTrapdoor,
        anchor: bls12_381::Scalar,
        merkle_path: MerklePath,
    ) -> Option<Spend> {
        <PlainProver as SpendProver>::prepare_circuit(
            proof_generation_key,
            diversifier,
            rseed,
            value,
            alpha,
            rcv,
            anchor,
            merkle_path,
        )
    }

    fn create_proof(&self, _: Spend, rng: &mut StdRng) -> [u8; 192] {
        let mut drawn = [0u8; 192];
        rng.fill_bytes(&mut drawn);
        drawn
    }

    fn encode_proof(proof: [u8; 192]) -> GrothProofBytes {
        proof
    }
}

impl OutputProver for DrawingProver {
    type Proof = [u8; 192];

    fn prepare_circuit(
        esk: Fr,
        payment_address: PaymentAddress,
        rcm: Fr,
        value: NoteValue,
        rcv: ValueCommitTrapdoor,
    ) -> Output {
        <PlainProver as OutputProver>::prepare_circuit(esk, payment_address, rcm, value, rcv)
    }

    fn create_proof(&self, _: Output, rng: &mut StdRng) -> [u8; 192] {
        let mut drawn = [0u8; 192];
        rng.fill_bytes(&mut drawn);
        drawn
    }

    fn encode_proof(proof: [u8; 192]) -> GrothProofBytes {
        proof
    }
}

fn bytes_from<const N: usize>(rng: &mut StdRng) -> [u8; N] {
    let mut bytes = [0u8; N];
    rng.fill_bytes(&mut bytes);
    bytes
}

#[test]
fn outputs_are_encrypted_with_the_generator_in_order() {
    let mut r = rng(70);
    let mut b = builder();
    for tag in 1..=3u8 {
        send(&mut b, &mut r, tag, u64::from(tag));
    }
    let mut own = r.clone();
    let (bundle, metadata) =
        b.build::<Drawing, DrawingProver, DrawingProver, i64>(&mut r).unwrap().unwrap();
    let mut order = vec![0, 1, 2];
    order.shuffle(&mut own);
    for (i, description) in bundle.shielded_outputs.iter().enumerate() {
        assert_eq!(metadata.output_index(order[i]), Some(i));
        assert_eq!(description.ephemeral_key, bytes_from::<32>(&mut own));
        assert_eq!(description.out_ciphertext, bytes_from::<80>(&mut own));
    }
    assert_eq!(r, own);
}

#[test]
fn proofs_are_made_with_the_generator_in_order() {
    let mut r = rng(71);
    let bundle = two_spends(&mut r);
    let mut own = r.clone();
    let proven = bundle.create_proofs(&DrawingProver, &DrawingProver, &mut r, ());
    for description in &proven.shielded_spends {
        assert_eq!(description.zkproof, bytes_from::<192>(&mut own));
    }
    for description in &proven.shielded_outputs {
        assert_eq!(description.zkproof, bytes_from::<192>(&mut own));
    }
    assert_eq!(r, own);
}

#[test]
fn absent_memo_is_encrypted_as_the_memo_that_says_so() {
    let mut memo = [0u8; 512];
    memo[0] = 0xf6;
    let mut bundles = vec![];
    for given in [None, Some(memo)] {
        let mut r = rng(72);
        let mut b = builder();
        b.add_output(&mut r, None, address(6), NoteValue::from_raw(5), given).unwrap();
        bundles.push(build(b, &mut r).0);
    }
    let absent = &bundles[0].shielded_outputs[0];
    let given = &bundles[1].shielded_outputs[0];
    assert_eq!(absent.enc_ciphertext, given.enc_ciphertext);
    assert_eq!(absent.out_ciphertext, given.out_ciphertext);
    assert_eq!(absent.ephemeral_key, given.ephemeral_key);
    assert_eq!(absent.cv, given.cv);
    assert_eq!(absent.cmu, given.cmu);
}

#[test]
fn build_fails_for_its_amount_without_drawing() {
    let mut r = rng(73);
    let mut b = builder();
    send(&mut b, &mut r, 6, 5);
    assert_eq!(b.try_value_balance::<u8>(), Err(Error::InvalidAmount));
    let untouched = r.clone();
    assert_eq!(
        b.build::<Drawing, DrawingProver, DrawingProver, u8>(&mut r).err(),
        Some(Error::InvalidAmount)
    );
    assert_eq!(r, untouched);
}
