//! Values, keys and signatures, held against the curve itself.

use group::ff::Field;
use group::GroupEncoding;
use jubjub::ExtendedPoint;
use rand::rngs::StdRng;
use rand::SeedableRng;
use sapling_builder::error::Error;
use sapling_builder::keys::{
    ExpandedSpendingKey, OutgoingViewingKey, ProofGenerationKey, SpendAuthorizingKey,
};
use sapling_builder::point::{
    PROOF_GENERATION_KEY_GENERATOR, VALUE_COMMITMENT_RANDOMNESS_GENERATOR,
    VALUE_COMMITMENT_VALUE_GENERATOR,
};
use sapling_builder::scalar::Fr;
use sapling_builder::value::{
    CommitmentSum, NoteValue, TrapdoorSum, ValueCommitTrapdoor, ValueCommitment, ValueSum,
};

fn point(bytes: &[u8; 32]) -> ExtendedPoint {
    ExtendedPoint::from_bytes(bytes).unwrap()
}

fn fr(value: u64) -> Fr {
    Fr::from_bytes(&jubjub::Fr::from(value).to_bytes()).unwrap()
}

fn trapdoor(scalar: jubjub::Fr) -> ValueCommitTrapdoor {
    ValueCommitTrapdoor::from_scalar(Fr::from_bytes(&scalar.to_bytes()).unwrap())
}

fn committed(value: u64, scalar: jubjub::Fr) -> [u8; 32] {
    let v = point(&VALUE_COMMITMENT_VALUE_GENERATOR) * jubjub::Fr::from(value);
    let r = point(&VALUE_COMMITMENT_RANDOMNESS_GENERATOR) * scalar;
    (v + r).to_bytes()
}

#[test]
fn scalars_are_canonical() {
    let order: [u8; 32] = [
        0xb7, 0x2c, 0xf7, 0xd6, 0x5e, 0x0e, 0x97, 0xd0, 0x82, 0x10, 0xc8, 0xcc, 0x93, 0x20, 0x68,
        0xa6, 0x00, 0x3b, 0x34, 0x01, 0x01, 0x3b, 0x67, 0x06, 0xa9, 0xaf, 0x33, 0x65, 0xea, 0xb4,
        0x7d, 0x0e,
    ];
    assert!(Fr::from_bytes(&order).is_none());
    let mut largest = order;
    largest[0] -= 1;
    assert_eq!(Fr::from_bytes(&largest).unwrap().to_bytes(), largest);
    assert!(Fr::from_bytes(&[0xff; 32]).is_none());
}

#[test]
fn generators_have_prime_order() {
    for bytes in [
        VALUE_COMMITMENT_VALUE_GENERATOR,
        VALUE_COMMITMENT_RANDOMNESS_GENERATOR,
        PROOF_GENERATION_KEY_GENERATOR,
    ] {
        let generator = point(&bytes);
        assert!(bool::from(generator.is_prime_order()));
        assert_eq!(generator.to_bytes(), bytes);
    }
}

#[test]
fn value_sum_adds_and_subtracts() {
    let sum = ValueSum::zero()
        .checked_add(NoteValue::from_raw(70))
        .unwrap()
        .checked_sub(NoteValue::from_raw(100))
        .unwrap();
    assert_eq!(sum.to_i64(), Some(-30));
}

#[test]
fn value_sum_knows_its_range() {
    let limit = i64::MAX as u64;
    let most = ValueSum::zero().checked_add(NoteValue::from_raw(limit)).unwrap();
    assert_eq!(most.to_i64(), Some(i64::MAX));
    assert_eq!(most.checked_add(NoteValue::from_raw(1)).unwrap().to_i64(), None);
    let least = ValueSum::zero().checked_sub(NoteValue::from_raw(limit + 1)).unwrap();
    assert_eq!(least.to_i64(), Some(i64::MIN));
    assert_eq!(least.checked_sub(NoteValue::from_raw(1)).unwrap().to_i64(), None);
    assert_eq!(NoteValue::from_raw(limit).inner(), limit);
}

#[test]
fn commitment_places_value_and_randomness() {
    let mut rng = StdRng::seed_from_u64(1);
    for value in [0, 1, 5000, u64::MAX] {
        let rcv = jubjub::Fr::random(&mut rng);
        let cv = ValueCommitment::derive(NoteValue::from_raw(value), &trapdoor(rcv));
        assert_eq!(cv.to_bytes(), committed(value, rcv));
    }
}

#[test]
fn trapdoors_add_up_modulo_the_order() {
    let minus_one = -jubjub::Fr::one();
    let two = jubjub::Fr::from(2);
    let sum = TrapdoorSum::sum(&vec![trapdoor(minus_one), trapdoor(two)]);
    assert_eq!(sum.into_bsk().to_bytes(), jubjub::Fr::one().to_bytes());
    let difference = TrapdoorSum::zero().minus(TrapdoorSum::zero().plus(&trapdoor(two)));
    assert_eq!(difference.into_bsk().to_bytes(), (-two).to_bytes());
    assert_eq!(trapdoor(two).inner().to_bytes(), two.to_bytes());
}

#[test]
fn commitments_open_to_the_value_balance() {
    let mut rng = StdRng::seed_from_u64(2);
    let spent = [(70u64, jubjub::Fr::random(&mut rng)), (5, jubjub::Fr::random(&mut rng))];
    let sent = [(60u64, jubjub::Fr::random(&mut rng))];
    let commitments = |items: &[(u64, jubjub::Fr)]| -> Vec<ValueCommitment> {
        items
            .iter()
            .map(|(v, r)| ValueCommitment::derive(NoteValue::from_raw(*v), &trapdoor(*r)))
            .collect()
    };
    let trapdoors = |items: &[(u64, jubjub::Fr)]| -> Vec<ValueCommitTrapdoor> {
        items.iter().map(|(_, r)| trapdoor(*r)).collect()
    };
    let bsk = TrapdoorSum::sum(&trapdoors(&spent))
        .minus(TrapdoorSum::sum(&trapdoors(&sent)))
        .into_bsk();
    let bvk = CommitmentSum::sum(&commitments(&spent))
        .minus(CommitmentSum::sum(&commitments(&sent)))
        .into_bvk(15);
    let key = redjubjub::SigningKey::<redjubjub::Binding>::try_from(bsk.to_bytes()).unwrap();
    let expected: [u8; 32] = redjubjub::VerificationKey::from(&key).into();
    assert_eq!(bvk.to_bytes(), expected);

    // Any other value balance gives another key.
    let other = CommitmentSum::sum(&commitments(&spent))
        .minus(CommitmentSum::sum(&commitments(&sent)))
        .into_bvk(-15);
    assert_ne!(other.to_bytes(), expected);
}

#[test]
fn negative_value_balance_is_added_back() {
    let rcv = jubjub::Fr::from(77);
    let cv = ValueCommitment::derive(NoteValue::from_raw(40), &trapdoor(rcv));
    let bvk = CommitmentSum::zero().minus(CommitmentSum::zero().plus(&cv)).into_bvk(-40);
    let expected = point(&VALUE_COMMITMENT_RANDOMNESS_GENERATOR) * (-rcv);
    assert_eq!(bvk.to_bytes(), expected.to_bytes());
    let least = CommitmentSum::zero().into_bvk(i64::MIN);
    assert_eq!(least.to_bytes(), committed(1 << 63, jubjub::Fr::zero()));
}

#[test]
fn keys_are_those_of_the_curve() {
    let ask = SpendAuthorizingKey::from_scalar(fr(1234));
    let expsk = ExpandedSpendingKey { ask, nsk: fr(99), ovk: OutgoingViewingKey([0; 32]) };
    let sk =
        redjubjub::SigningKey::<redjubjub::SpendAuth>::try_from(fr(1234).to_bytes()).unwrap();
    let vk = redjubjub::VerificationKey::from(&sk);
    let vk_bytes: [u8; 32] = vk.into();

    let key: ProofGenerationKey = expsk.proof_generation_key();
    assert_eq!(key.ak.to_bytes(), vk_bytes);
    assert!(key.ak == ask.validating_key());
    let viewing = key.to_viewing_key();
    assert_eq!(
        viewing.nk.to_bytes(),
        (point(&PROOF_GENERATION_KEY_GENERATOR) * jubjub::Fr::from(99)).to_bytes()
    );

    let alpha = jubjub::Fr::from(4321);
    let rk: [u8; 32] = vk.randomize(&alpha).into();
    assert_eq!(key.ak.randomize(&fr(4321)).to_bytes(), rk);
    assert_eq!(ask.randomize(&fr(4321)).to_bytes(), fr(1234 + 4321).to_bytes());
    assert!(SpendAuthorizingKey::from_scalar(fr(5)).validating_key() != key.ak);
}

#[test]
fn errors_describe_themselves() {
    let expected = [
        (Error::AnchorMismatch, "Anchor mismatch (anchors for all spends must be equal)"),
        (Error::BindingSig, "Failed to create bindingSig"),
        (Error::DuplicateSignature, "Signature valid for more than one input"),
        (Error::InvalidAddress, "Invalid address"),
        (Error::InvalidAmount, "Invalid amount"),
        (Error::InvalidExternalSignature, "External signature was invalid"),
        (Error::MissingSignatures, "Required signatures were missing during build"),
        (Error::SpendProof, "Failed to create Sapling spend proof"),
    ];
    for (error, text) in expected {
        assert_eq!(error.to_string(), text);
    }
}
