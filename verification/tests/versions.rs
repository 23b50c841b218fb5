//! Versions of signatures, and signatures with the information on their sighash.

use sapling_builder::sapling_sighash_versioning::{
    SaplingSighashVersion, SaplingVersionedSig, VerBindingSig, VerSpendAuthSig,
};
use sapling_builder::signature::{Binding, Signature, SpendAuth};
use sapling_builder::signature_with_sighash_info::{
    sapling_sig_v0, BindingSignatureWithSighashInfo, SighashInfo, SignatureWithSighashInfo,
    SpendAuthSignatureWithSighashInfo,
};

#[test]
fn lock_sapling_sighash_version_encoding() {
    // Ensure the encoding of SaplingSighashVersion is as expected.
    assert_eq!(SaplingSighashVersion::V0.to_u8(), 0);
    assert_eq!(SaplingSighashVersion::NoVersion.to_u8(), u8::MAX);
}

#[test]
fn signature_with_sighash_info() {
    let binding_signature_with_info = BindingSignatureWithSighashInfo::new(
        sapling_sig_v0(),
        Signature::<Binding>::from([0u8; 64]),
    );
    assert_eq!(binding_signature_with_info.to_bytes(), [0u8; 65]);
}

#[test]
fn version_zero_has_no_associated_information() {
    let info = sapling_sig_v0();
    assert_eq!(info.version, 0);
    assert!(info.associated_information.is_empty());
}

#[test]
fn encoding_keeps_the_order_of_its_parts() {
    let mut bytes = [0u8; 64];
    bytes[0] = 0xaa;
    bytes[63] = 0xbb;
    let signature = SpendAuthSignatureWithSighashInfo::new(
        SighashInfo { version: 7, associated_information: vec![1, 2, 3] },
        Signature::<SpendAuth>::from(bytes),
    );
    let encoded = signature.to_bytes();
    assert_eq!(encoded.len(), 1 + 3 + 64);
    assert_eq!(&encoded[..4], &[7, 1, 2, 3]);
    assert_eq!(&encoded[4..], &bytes[..]);
    assert_eq!(signature.signature().to_bytes(), bytes);
    assert_eq!(signature.clone().to_bytes(), encoded);
}

#[test]
fn informed_signature_is_generic() {
    let signature: SignatureWithSighashInfo<Binding> =
        SignatureWithSighashInfo::new(sapling_sig_v0(), Signature::from([3u8; 64]));
    assert_eq!(signature.to_bytes()[0], 0);
    assert_eq!(&signature.to_bytes()[1..], &[3u8; 64][..]);
}

#[test]
fn versioned_signature_hands_its_parts_back() {
    let sig = Signature::<SpendAuth>::from([9u8; 64]);
    let versioned: VerSpendAuthSig = SaplingVersionedSig::new(SaplingSighashVersion::V0, sig);
    assert_eq!(versioned.version(), &SaplingSighashVersion::V0);
    assert_eq!(versioned.sig(), &sig);
    assert_eq!(versioned.clone(), versioned);

    let sig = Signature::<Binding>::from([8u8; 64]);
    let versioned = VerBindingSig::new(SaplingSighashVersion::NoVersion, sig);
    assert_eq!(versioned.version(), &SaplingSighashVersion::NoVersion);
    assert_eq!(versioned.sig().to_bytes(), [8u8; 64]);
}

#[test]
fn versions_are_ordered_as_their_bytes() {
    let v0 = SaplingSighashVersion::V0;
    let none = SaplingSighashVersion::NoVersion;
    assert!(v0 < none);
    assert!(v0.to_u8() < none.to_u8());
    assert_ne!(v0, none);
}
