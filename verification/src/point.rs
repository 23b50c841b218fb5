//! Points of the Jubjub curve, by their compressed encodings.

use crate::scalar::Fr;
use group::GroupEncoding;
use vstd::prelude::*;

verus! {

/// Encoding of the generator that a value commitment places the value on.
pub const VALUE_COMMITMENT_VALUE_GENERATOR: [u8; 32] = [
    215, 200, 103, 6, 245, 129, 122, 167, 24, 205, 28, 250, 208, 50, 51, 188, 214, 74, 119, 137,
    253, 148, 34, 211, 177, 122, 246, 130, 58, 126, 106, 198,
];

/// Encoding of the generator that a value commitment places its randomness on. It
/// is also the base point of binding signatures.
pub const VALUE_COMMITMENT_RANDOMNESS_GENERATOR: [u8; 32] = [
    139, 106, 11, 56, 185, 250, 174, 60, 59, 128, 59, 71, 176, 241, 70, 173, 80, 171, 34, 30, 110,
    42, 251, 230, 219, 222, 69, 203, 169, 211, 129, 237,
];

/// Encoding of the generator that nullifier deriving keys are multiples of.
pub const PROOF_GENERATION_KEY_GENERATOR: [u8; 32] = [
    231, 232, 93, 224, 247, 249, 122, 70, 210, 73, 161, 245, 234, 81, 223, 80, 204, 72, 73, 15,
    132, 1, 201, 222, 122, 42, 223, 24, 7, 209, 182, 212,
];

/// One of the three generators above. Each encodes a point of prime order.
pub open spec fn is_generator(encoding: Seq<u8>) -> bool {
    ||| encoding == VALUE_COMMITMENT_VALUE_GENERATOR@
    ||| encoding == VALUE_COMMITMENT_RANDOMNESS_GENERATOR@
    ||| encoding == PROOF_GENERATION_KEY_GENERATOR@
}

/// The three generators, byte for byte. No two of them are the same.
pub proof fn law_generators()
    ensures
        VALUE_COMMITMENT_VALUE_GENERATOR@ == seq![
            0xd7u8, 0xc8u8, 0x67u8, 0x06u8, 0xf5u8, 0x81u8, 0x7au8, 0xa7u8,
            0x18u8, 0xcdu8, 0x1cu8, 0xfau8, 0xd0u8, 0x32u8, 0x33u8, 0xbcu8,
            0xd6u8, 0x4au8, 0x77u8, 0x89u8, 0xfdu8, 0x94u8, 0x22u8, 0xd3u8,
            0xb1u8, 0x7au8, 0xf6u8, 0x82u8, 0x3au8, 0x7eu8, 0x6au8, 0xc6u8,
        ],
        VALUE_COMMITMENT_RANDOMNESS_GENERATOR@ == seq![
            0x8bu8, 0x6au8, 0x0bu8, 0x38u8, 0xb9u8, 0xfau8, 0xaeu8, 0x3cu8,
            0x3bu8, 0x80u8, 0x3bu8, 0x47u8, 0xb0u8, 0xf1u8, 0x46u8, 0xadu8,
            0x50u8, 0xabu8, 0x22u8, 0x1eu8, 0x6eu8, 0x2au8, 0xfbu8, 0xe6u8,
            0xdbu8, 0xdeu8, 0x45u8, 0xcbu8, 0xa9u8, 0xd3u8, 0x81u8, 0xedu8,
        ],
        PROOF_GENERATION_KEY_GENERATOR@ == seq![
            0xe7u8, 0xe8u8, 0x5du8, 0xe0u8, 0xf7u8, 0xf9u8, 0x7au8, 0x46u8,
            0xd2u8, 0x49u8, 0xa1u8, 0xf5u8, 0xeau8, 0x51u8, 0xdfu8, 0x50u8,
            0xccu8, 0x48u8, 0x49u8, 0x0fu8, 0x84u8, 0x01u8, 0xc9u8, 0xdeu8,
            0x7au8, 0x2au8, 0xdfu8, 0x18u8, 0x07u8, 0xd1u8, 0xb6u8, 0xd4u8,
        ],
        VALUE_COMMITMENT_VALUE_GENERATOR@ != VALUE_COMMITMENT_RANDOMNESS_GENERATOR@,
        VALUE_COMMITMENT_VALUE_GENERATOR@ != PROOF_GENERATION_KEY_GENERATOR@,
        VALUE_COMMITMENT_RANDOMNESS_GENERATOR@ != PROOF_GENERATION_KEY_GENERATOR@,
{
    assert(VALUE_COMMITMENT_VALUE_GENERATOR@[0] == 215);
    assert(VALUE_COMMITMENT_RANDOMNESS_GENERATOR@[0] == 139);
    assert(PROOF_GENERATION_KEY_GENERATOR@[0] == 231);
}

/// Whether `jubjub::ExtendedPoint::from_bytes` decodes these bytes.
pub uninterp spec fn is_point(encoding: Seq<u8>) -> bool;

/// The encoding of `k` times the point that `base` encodes, as
/// `jubjub::ExtendedPoint::mul` computes it.
pub uninterp spec fn point_multiple(base: Seq<u8>, k: int) -> Seq<u8>;

/// The encoding of the sum of two encoded points, as `jubjub::ExtendedPoint::add`
/// computes it.
pub uninterp spec fn point_sum(p: Seq<u8>, q: Seq<u8>) -> Seq<u8>;

/// The encoding of the difference of two encoded points, as
/// `jubjub::ExtendedPoint::sub` computes it.
pub uninterp spec fn point_difference(p: Seq<u8>, q: Seq<u8>) -> Seq<u8>;

/// `x` times the value generator plus `y` times the randomness generator.
pub open spec fn combination(x: int, y: int) -> Seq<u8> {
    point_sum(
        point_multiple(VALUE_COMMITMENT_VALUE_GENERATOR@, x),
        point_multiple(VALUE_COMMITMENT_RANDOMNESS_GENERATOR@, y),
    )
}

/// A combination is a multiple of the value generator plus one of the randomness generator.
pub proof fn law_combination_is_of_generators(x: int, y: int)
    ensures
        combination(x, y) == point_sum(
            point_multiple(VALUE_COMMITMENT_VALUE_GENERATOR@, x),
            point_multiple(VALUE_COMMITMENT_RANDOMNESS_GENERATOR@, y),
        ),
{
}

/// `jubjub::ExtendedPoint::mul` on one of the generators.
#[verifier::external_body]
pub(crate) fn multiply(base: &[u8; 32], k: &Fr) -> (product: [u8; 32])
    requires
        is_generator(base@),
    ensures
        product@ == point_multiple(base@, k@ as int),
        is_point(product@),
{
    let p = jubjub::ExtendedPoint::from_bytes(base).unwrap();
    let s = jubjub::Fr::from_bytes(&k.bytes).unwrap();
    (p * s).to_bytes()
}

/// `jubjub::ExtendedPoint::add` on the points that two encodings stand for. The
/// last clause is the group law on combinations of the two value generators:
/// their coefficients add up.
#[verifier::external_body]
pub(crate) fn add_points(a: &[u8; 32], b: &[u8; 32]) -> (sum: [u8; 32])
    requires
        is_point(a@),
        is_point(b@),
    ensures
        sum@ == point_sum(a@, b@),
        is_point(sum@),
        forall|x1: int, y1: int, x2: int, y2: int|
            a@ == #[trigger] combination(x1, y1) && b@ == #[trigger] combination(x2, y2)
                ==> sum@ == combination(x1 + x2, y1 + y2),
{
    let p = jubjub::ExtendedPoint::from_bytes(a).unwrap();
    let q = jubjub::ExtendedPoint::from_bytes(b).unwrap();
    (p + q).to_bytes()
}

/// `jubjub::ExtendedPoint::sub` on the points that two encodings stand for. On
/// combinations of the two value generators, the coefficients are subtracted.
#[verifier::external_body]
pub(crate) fn subtract_points(a: &[u8; 32], b: &[u8; 32]) -> (difference: [u8; 32])
    requires
        is_point(a@),
        is_point(b@),
    ensures
        difference@ == point_difference(a@, b@),
        is_point(difference@),
        forall|x1: int, y1: int, x2: int, y2: int|
            a@ == #[trigger] combination(x1, y1) && b@ == #[trigger] combination(x2, y2)
                ==> difference@ == combination(x1 - x2, y1 - y2),
{
    let p = jubjub::ExtendedPoint::from_bytes(a).unwrap();
    let q = jubjub::ExtendedPoint::from_bytes(b).unwrap();
    (p - q).to_bytes()
}

/// `jubjub::ExtendedPoint::identity`: the neutral element of the group, which is
/// zero times either generator.
#[verifier::external_body]
pub(crate) fn identity() -> (zero: [u8; 32])
    ensures
        zero@ == combination(0, 0),
        is_point(zero@),
{
    jubjub::ExtendedPoint::identity().to_bytes()
}

} // verus!
