use ark_bn254::{Fq, Fr, G1Affine, G2Affine};
use ark_ec::{AffineRepr, CurveGroup};
use ark_ff::{BigInteger, PrimeField};
use zk_verifier::{Groth16Proof, VerifyError, VerifyingKey, ZKVerifier};

fn word(f: Fq) -> [u8; 32] {
    f.into_bigint().to_bytes_be().try_into().unwrap()
}

fn g1(k: u64) -> G1Affine {
    (G1Affine::generator() * Fr::from(k)).into_affine()
}

fn g2(k: u64) -> G2Affine {
    (G2Affine::generator() * Fr::from(k)).into_affine()
}

fn g1_words(p: G1Affine) -> [[u8; 32]; 2] {
    [word(p.x), word(p.y)]
}

fn g2_words(p: G2Affine) -> [[u8; 32]; 4] {
    [word(p.x.c0), word(p.x.c1), word(p.y.c0), word(p.y.c1)]
}

fn proof_bytes(a: G1Affine, b: G2Affine, c: G1Affine) -> Vec<u8> {
    let mut out = Vec::new();
    for w in g1_words(a).iter().chain(g2_words(b).iter()).chain(g1_words(c).iter()) {
        out.extend_from_slice(w);
    }
    out
}

fn scalar(v: u64) -> Vec<u8> {
    let mut out = vec![0u8; 24];
    out.extend_from_slice(&v.to_be_bytes());
    out
}

fn one_input_key() -> VerifyingKey {
    VerifyingKey::from_words(
        &g1_words(g1(5)),
        &g2_words(g2(7)),
        &g2_words(g2(11)),
        &g2_words(g2(13)),
        &vec![g1_words(g1(17)), g1_words(g1(19))],
    )
    .unwrap()
}

#[test]
fn test_proof_format() {
    let proof_bytes = vec![0u8; 256];
    let result = Groth16Proof::from_uncompressed_bytes(&proof_bytes);
    assert_eq!(result.unwrap_err(), VerifyError::PointNotOnCurve);
}

#[test]
fn test_vk_loading() {
    // The deployed coordinate words do not lie on the curve, so the load
    // fails closed instead of yielding a key.
    let vk = VerifyingKey::load_real();
    assert_eq!(vk.unwrap_err(), VerifyError::PointNotOnCurve);

    let vk = one_input_key();
    assert_eq!(vk.alpha_g1().x, word(g1(5).x));
    assert_eq!(vk.alpha_g1().y, word(g1(5).y));
    assert!(!vk.alpha_g1().infinity);
    assert_eq!(vk.beta_g2().x0, word(g2(7).x.c0));
    assert_eq!(vk.gamma_g2().y1, word(g2(11).y.c1));
    assert_eq!(vk.delta_g2().x1, word(g2(13).x.c1));
    assert_eq!(vk.ic_len(), 2);
    assert_eq!(vk.ic_point(1).y, word(g1(19).y));
}

#[test]
fn key_loading_is_idempotent() {
    let first = VerifyingKey::load_real();
    let second = VerifyingKey::load_real();
    assert_eq!(first.unwrap_err(), second.unwrap_err());
}

#[test]
fn key_with_off_curve_point_is_refused() {
    let mut bad_ic = g1_words(g1(19));
    bad_ic[1][31] ^= 1;
    let r = VerifyingKey::from_words(
        &g1_words(g1(5)),
        &g2_words(g2(7)),
        &g2_words(g2(11)),
        &g2_words(g2(13)),
        &vec![g1_words(g1(17)), bad_ic],
    );
    assert_eq!(r.unwrap_err(), VerifyError::PointNotOnCurve);

    let mut bad_beta = g2_words(g2(7));
    bad_beta[0][31] ^= 1;
    let r = VerifyingKey::from_words(
        &g1_words(g1(5)),
        &bad_beta,
        &g2_words(g2(11)),
        &g2_words(g2(13)),
        &vec![g1_words(g1(17))],
    );
    assert_eq!(r.unwrap_err(), VerifyError::PointNotOnCurve);
}

#[test]
fn proof_of_wrong_length_is_refused() {
    for len in [0usize, 1, 32, 255, 257, 512] {
        let r = Groth16Proof::from_uncompressed_bytes(&vec![0u8; len]);
        assert_eq!(r.unwrap_err(), VerifyError::InvalidLength);
    }
}

#[test]
fn valid_proof_points_decode() {
    let bytes = proof_bytes(g1(1775), g2(1), g1(23));
    let proof = Groth16Proof::from_uncompressed_bytes(&bytes).unwrap();
    assert_eq!(proof.a().x, word(g1(1775).x));
    assert_eq!(proof.a().y, word(g1(1775).y));
    assert_eq!(proof.b().x0, word(g2(1).x.c0));
    assert_eq!(proof.b().x1, word(g2(1).x.c1));
    assert_eq!(proof.b().y0, word(g2(1).y.c0));
    assert_eq!(proof.b().y1, word(g2(1).y.c1));
    assert_eq!(proof.c().x, word(g1(23).x));
    assert_eq!(proof.c().y, word(g1(23).y));
}

#[test]
fn proof_coordinates_are_reduced() {
    // A.x + p still fits in 32 bytes and decodes to A.x.
    let mut bytes = proof_bytes(g1(1775), g2(1), g1(23));
    let p = Fq::MODULUS.to_bytes_be();
    let mut carry = 0u16;
    for i in (0..32).rev() {
        let s = bytes[i] as u16 + p[i] as u16 + carry;
        bytes[i] = (s & 0xff) as u8;
        carry = s >> 8;
    }
    assert_eq!(carry, 0);
    let proof = Groth16Proof::from_uncompressed_bytes(&bytes).unwrap();
    assert_eq!(proof.a().x, word(g1(1775).x));
}

#[test]
fn off_curve_proof_points_are_refused() {
    let good = proof_bytes(g1(1775), g2(1), g1(23));
    for pos in [31usize, 63, 95, 127, 159, 191, 223, 255] {
        let mut bytes = good.clone();
        bytes[pos] ^= 1;
        let r = Groth16Proof::from_uncompressed_bytes(&bytes);
        assert_eq!(r.unwrap_err(), VerifyError::PointNotOnCurve);
    }
}

#[test]
fn public_inputs_of_wrong_size_are_refused() {
    let r = ZKVerifier::parse_public_inputs(&vec![scalar(6), vec![0u8; 31]]);
    assert_eq!(r.unwrap_err(), VerifyError::InvalidPublicInputSize);
    let r = ZKVerifier::parse_public_inputs(&vec![vec![0u8; 33]]);
    assert_eq!(r.unwrap_err(), VerifyError::InvalidPublicInputSize);
}

#[test]
fn public_inputs_are_reduced_in_order() {
    let r_plus_6 = {
        let mut m = Fr::MODULUS;
        m.add_with_carry(&ark_ff::BigInt::<4>::from(6u64));
        m.to_bytes_be()
    };
    let parsed = ZKVerifier::parse_public_inputs(&vec![scalar(7), r_plus_6, scalar(0)]).unwrap();
    assert_eq!(parsed.len(), 3);
    assert_eq!(parsed[0].to_vec(), scalar(7));
    assert_eq!(parsed[1].to_vec(), scalar(6));
    assert_eq!(parsed[2].to_vec(), scalar(0));
    assert_eq!(ZKVerifier::parse_public_inputs(&vec![]).unwrap().len(), 0);
}

#[test]
fn error_messages_are_readable() {
    let all = [
        VerifyError::InvalidLength,
        VerifyError::PointNotOnCurve,
        VerifyError::InvalidPublicInputSize,
        VerifyError::InvalidPublicInputCount,
        VerifyError::AlreadyInitialized,
        VerifyError::PrecompileCallFailed,
    ];
    for e in all {
        assert!(!e.message().is_empty());
    }
    assert_eq!(VerifyError::AlreadyInitialized.message(), "already initialized");
}
