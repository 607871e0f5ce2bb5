use vstd::prelude::*;
use group::Curve;
use crate::types::hash::{sha256, sha256_digest};

verus! {

/// A BLS signature: a point of G1 in compressed form.
#[derive(Clone, Copy, Debug)]
pub struct BlsSignature {
    pub point: [u8; 48],
}

/// A BLS public key: a point of G2 in compressed form.
#[derive(Clone, Copy, Debug)]
pub struct BlsPublicKey {
    pub point: [u8; 96],
}

/// Whether `bytes` is the compressed encoding of a point of G1 (in the prime-order subgroup),
/// as `G1Affine::from_compressed` decides.
pub uninterp spec fn g1_point_decodes(bytes: Seq<u8>) -> bool;

/// Whether `bytes` is the compressed encoding of a point of G2 (in the prime-order subgroup),
/// as `G2Affine::from_compressed` decides.
pub uninterp spec fn g2_point_decodes(bytes: Seq<u8>) -> bool;

/// The compressed encoding of the G1 generator multiplied by the scalar that the 64 bytes
/// `wide` reduce to.
pub uninterp spec fn g1_generator_mul(wide: Seq<u8>) -> Seq<u8>;

/// Whether `e(p1, q1) == e(p2, q2)` for the points that the four compressed encodings decode to.
pub uninterp spec fn pairings_match(p1: Seq<u8>, q1: Seq<u8>, p2: Seq<u8>, q2: Seq<u8>) -> bool;

/// The compressed encoding of the fixed G2 generator of `bls12_381`.
pub open spec fn g2_generator_bytes() -> Seq<u8> {
    seq![
        0x93u8, 0xe0u8, 0x2bu8, 0x60u8, 0x52u8, 0x71u8, 0x9fu8, 0x60u8, 0x7du8, 0xacu8, 0xd3u8, 0xa0u8,
        0x88u8, 0x27u8, 0x4fu8, 0x65u8, 0x59u8, 0x6bu8, 0xd0u8, 0xd0u8, 0x99u8, 0x20u8, 0xb6u8, 0x1au8,
        0xb5u8, 0xdau8, 0x61u8, 0xbbu8, 0xdcu8, 0x7fu8, 0x50u8, 0x49u8, 0x33u8, 0x4cu8, 0xf1u8, 0x12u8,
        0x13u8, 0x94u8, 0x5du8, 0x57u8, 0xe5u8, 0xacu8, 0x7du8, 0x05u8, 0x5du8, 0x04u8, 0x2bu8, 0x7eu8,
        0x02u8, 0x4au8, 0xa2u8, 0xb2u8, 0xf0u8, 0x8fu8, 0x0au8, 0x91u8, 0x26u8, 0x08u8, 0x05u8, 0x27u8,
        0x2du8, 0xc5u8, 0x10u8, 0x51u8, 0xc6u8, 0xe4u8, 0x7au8, 0xd4u8, 0xfau8, 0x40u8, 0x3bu8, 0x02u8,
        0xb4u8, 0x51u8, 0x0bu8, 0x64u8, 0x7au8, 0xe3u8, 0xd1u8, 0x77u8, 0x0bu8, 0xacu8, 0x03u8, 0x26u8,
        0xa8u8, 0x05u8, 0xbbu8, 0xefu8, 0xd4u8, 0x80u8, 0x56u8, 0xc8u8, 0xc1u8, 0x21u8, 0xbdu8, 0xb8u8,
    ]
}

/// `G1Affine::from_compressed`: whether the 48 bytes decode to a G1 point.
#[verifier::external_body]
pub(crate) fn decodes_g1(bytes: &[u8; 48]) -> (ok: bool)
    ensures
        ok == g1_point_decodes(bytes@),
{
    bool::from(bls12_381::G1Affine::from_compressed(bytes).is_some())
}

/// `G2Affine::from_compressed`: whether the 96 bytes decode to a G2 point.
#[verifier::external_body]
fn decodes_g2(bytes: &[u8; 96]) -> (ok: bool)
    ensures
        ok == g2_point_decodes(bytes@),
{
    bool::from(bls12_381::G2Affine::from_compressed(bytes).is_some())
}

/// `G1Projective::generator() * Scalar::from_bytes_wide(wide)`, in compressed form. The
/// compressed form of a point decodes again.
#[verifier::external_body]
pub(crate) fn g1_generator_times(wide: &[u8; 64]) -> (p: [u8; 48])
    ensures
        p@ == g1_generator_mul(wide@),
        g1_point_decodes(p@),
{
    (bls12_381::G1Projective::generator() * bls12_381::Scalar::from_bytes_wide(wide)).to_affine().to_compressed()
}

/// `G2Affine::generator()`, in compressed form; it decodes again.
#[verifier::external_body]
fn g2_generator() -> (g: [u8; 96])
    ensures
        g@ == g2_generator_bytes(),
        g2_point_decodes(g@),
{
    bls12_381::G2Affine::generator().to_compressed()
}

/// `pairing(p1, q1) == pairing(p2, q2)` on the decoded points.
#[verifier::external_body]
fn pairing_equal(p1: &[u8; 48], q1: &[u8; 96], p2: &[u8; 48], q2: &[u8; 96]) -> (eq: bool)
    requires
        g1_point_decodes(p1@),
        g2_point_decodes(q1@),
        g1_point_decodes(p2@),
        g2_point_decodes(q2@),
    ensures
        eq == pairings_match(p1@, q1@, p2@, q2@),
{
    let a1 = bls12_381::G1Affine::from_compressed(p1).unwrap();
    let b1 = bls12_381::G2Affine::from_compressed(q1).unwrap();
    let a2 = bls12_381::G1Affine::from_compressed(p2).unwrap();
    let b2 = bls12_381::G2Affine::from_compressed(q2).unwrap();
    bls12_381::pairing(&a1, &b1) == bls12_381::pairing(&a2, &b2)
}

/// The 64 bytes a message is mapped to before it becomes a scalar: its SHA-256 digest, then
/// its first 32 bytes (zero-padded when the message is shorter).
pub open spec fn bls_scalar_input(message: Seq<u8>) -> Seq<u8> {
    sha256(message) + if message.len() >= 32 {
        message.subrange(0, 32)
    } else {
        message + Seq::new((32 - message.len()) as nat, |i: int| 0u8)
    }
}

/// Whether `signature` is a valid BLS signature of `message` under `public_key`: both decode,
/// and `e(g1 * s, public_key) == e(signature, g2)` where `s` is the scalar of the message's
/// 64-byte input and `g1`, `g2` are the fixed generators.
pub open spec fn bls_signature_valid(message: Seq<u8>, signature: Seq<u8>, public_key: Seq<u8>) -> bool {
    &&& g1_point_decodes(signature)
    &&& g2_point_decodes(public_key)
    &&& pairings_match(g1_generator_mul(bls_scalar_input(message)), public_key, signature, g2_generator_bytes())
}

/// Computes the 64-byte scalar input for a message.
pub fn scalar_input(message: &[u8]) -> (wide: [u8; 64])
    ensures
        wide@ == bls_scalar_input(message@),
{
    let digest = sha256_digest(message);
    let mut wide = [0u8; 64];
    let mut i: usize = 0;
    while i < 32
        invariant
            i <= 32,
            wide@.len() == 64,
            forall|j: int| 0 <= j < i ==> wide@[j] == digest@[j],
            forall|j: int| 32 <= j < 64 ==> wide@[j] == 0u8,
        decreases 32 - i,
    {
        wide[i] = digest[i];
        i = i + 1;
    }
    let n: usize = if message.len() >= 32 { 32 } else { message.len() };
    let mut k: usize = 0;
    while k < n
        invariant
            k <= n,
            n <= 32,
            n == (if message@.len() >= 32 { 32 } else { message@.len() }),
            wide@.len() == 64,
            forall|j: int| 0 <= j < 32 ==> wide@[j] == digest@[j],
            forall|j: int| 32 <= j < 32 + k ==> wide@[j] == message@[j - 32],
            forall|j: int| 32 + k <= j < 64 ==> wide@[j] == 0u8,
        decreases n - k,
    {
        wide[32 + k] = message[k];
        k = k + 1;
    }
    assert(wide@ =~= bls_scalar_input(message@));
    wide
}

/// Verifies a BLS signature of `message` under `public_key`.
pub fn verify_bls_signature(message: &[u8], signature: &BlsSignature, public_key: &BlsPublicKey) -> (ok: bool)
    ensures
        ok == bls_signature_valid(message@, signature.point@, public_key.point@),
{
    if !decodes_g1(&signature.point) || !decodes_g2(&public_key.point) {
        return false;
    }
    let wide = scalar_input(message);
    let hashed = g1_generator_times(&wide);
    let g2 = g2_generator();
    pairing_equal(&hashed, &public_key.point, &signature.point, &g2)
}

} // verus!
