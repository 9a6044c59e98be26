use ark_bn254::{Bn254, Fq, Fq12, Fq2, Fr, G1Affine, G2Affine};
use ark_ec::pairing::Pairing;
use ark_ec::{AffineRepr, CurveGroup};
use ark_ff::{BigInteger, PrimeField};
use ark_std::One;
use zk_verifier::{Groth16Proof, VerifyError, VerifyingKey, ZKVerifier};

// A key and a proof for a circuit with one public input `c`, built from known
// discrete logarithms: alpha = 5, beta = 7, gamma = 11, delta = 13,
// ic = [17, 19] (times the generators). For c = 6, L = (17 + 19 * 6) G1 =
// 131 G1; with C = 23 G1 and B = G2 the equation holds for
// A = (5 * 7 + 131 * 11 + 23 * 13) G1 = 1775 G1.

fn word(f: Fq) -> [u8; 32] {
    f.into_bigint().to_bytes_be().try_into().unwrap()
}

fn g1(k: u64) -> G1Affine {
    (G1Affine::generator() * Fr::from(k)).into_affine()
}

fn g2(k: u64) -> G2Affine {
    (G2Affine::generator() * Fr::from(k)).into_affine()
}

fn g1_words(p: G1Affine) -> [[u8; 32]; 2] {
    [word(p.x), word(p.y)]
}

fn g2_words(p: G2Affine) -> [[u8; 32]; 4] {
    [word(p.x.c0), word(p.x.c1), word(p.y.c0), word(p.y.c1)]
}

fn proof_bytes(a: G1Affine, b: G2Affine, c: G1Affine) -> Vec<u8> {
    let mut out = Vec::new();
    for w in g1_words(a).iter().chain(g2_words(b).iter()).chain(g1_words(c).iter()) {
        out.extend_from_slice(w);
    }
    out
}

fn scalar(v: u64) -> Vec<u8> {
    let mut out = vec![0u8; 24];
    out.extend_from_slice(&v.to_be_bytes());
    out
}

fn multiplier_key() -> VerifyingKey {
    VerifyingKey::from_words(
        &g1_words(g1(5)),
        &g2_words(g2(7)),
        &g2_words(g2(11)),
        &g2_words(g2(13)),
        &vec![g1_words(g1(17)), g1_words(g1(19))],
    )
    .unwrap()
}

fn valid_proof() -> Vec<u8> {
    proof_bytes(g1(1775), g2(1), g1(23))
}

// Evaluates a pairing-check input the way the host primitive does: each
// 192-byte term is a G1 point (64 zero bytes for infinity) and a G2 point.
fn host_pairing_check(input: &[u8]) -> Vec<u8> {
    assert_eq!(input.len() % 192, 0);
    let fq = |b: &[u8]| Fq::from_be_bytes_mod_order(b);
    let mut g1s = Vec::new();
    let mut g2s = Vec::new();
    for t in input.chunks(192) {
        let p = if t[..64].iter().all(|b| *b == 0) {
            G1Affine::identity()
        } else {
            G1Affine::new(fq(&t[0..32]), fq(&t[32..64]))
        };
        let q = G2Affine::new(
            Fq2::new(fq(&t[64..96]), fq(&t[96..128])),
            Fq2::new(fq(&t[128..160]), fq(&t[160..192])),
        );
        g1s.push(p);
        g2s.push(q);
    }
    let mut answer = vec![0u8; 32];
    if Bn254::multi_pairing(g1s, g2s).0 == Fq12::one() {
        answer[31] = 1;
    }
    answer
}

fn initialized() -> ZKVerifier {
    let mut v = ZKVerifier::new();
    v.initialize([7u8; 20]).unwrap();
    v
}

#[test]
fn genuine_proof_is_accepted() {
    let vk = multiplier_key();
    let mut v = initialized();
    assert_eq!(v.verify_with_key(&vk, valid_proof(), vec![scalar(6)]), Ok(true));
    assert_eq!(v.get_verified_count(), 1);
}

#[test]
fn flipped_proof_bits_are_not_accepted() {
    let vk = multiplier_key();
    let mut v = initialized();
    let good = valid_proof();
    for pos in [0usize, 40, 70, 100, 140, 170, 200, 250] {
        for bit in [0u8, 3, 7] {
            let mut bytes = good.clone();
            bytes[pos] ^= 1 << bit;
            assert_ne!(v.verify_with_key(&vk, bytes, vec![scalar(6)]), Ok(true));
        }
    }
    assert_eq!(v.get_verified_count(), 0);
}

#[test]
fn proof_for_other_input_is_rejected() {
    let vk = multiplier_key();
    let mut v = initialized();
    assert_eq!(v.verify_with_key(&vk, valid_proof(), vec![scalar(7)]), Ok(false));
    assert_eq!(v.get_verified_count(), 0);
}

#[test]
fn on_curve_forgery_is_rejected() {
    let vk = multiplier_key();
    let mut v = initialized();
    let forged = proof_bytes(g1(1776), g2(1), g1(23));
    assert_eq!(v.verify_with_key(&vk, forged, vec![scalar(6)]), Ok(false));
    assert_eq!(v.get_verified_count(), 0);
}

#[test]
fn input_above_scalar_modulus_is_reduced() {
    let vk = multiplier_key();
    let mut v = initialized();
    let mut m = Fr::MODULUS;
    m.add_with_carry(&ark_ff::BigInt::<4>::from(6u64));
    assert_eq!(v.verify_with_key(&vk, valid_proof(), vec![m.to_bytes_be()]), Ok(true));
}

#[test]
fn one_public_input_needs_two_ic_points() {
    let vk = multiplier_key();
    assert_eq!(vk.ic_len(), 2);
    let mut v = initialized();
    assert_eq!(
        v.verify_with_key(&vk, valid_proof(), vec![]),
        Err(VerifyError::InvalidPublicInputCount)
    );
    assert_eq!(
        v.verify_with_key(&vk, valid_proof(), vec![scalar(6), scalar(6)]),
        Err(VerifyError::InvalidPublicInputCount)
    );
    assert_eq!(v.get_verified_count(), 0);
    assert_eq!(v.verify_with_key(&vk, valid_proof(), vec![scalar(6)]), Ok(true));
}

#[test]
fn arity_is_checked_on_decoded_proofs() {
    let vk = multiplier_key();
    let proof = Groth16Proof::from_uncompressed_bytes(&valid_proof()).unwrap();
    let none: Vec<[u8; 32]> = Vec::new();
    assert_eq!(
        ZKVerifier::verify_groth16(&proof, &none, &vk),
        Err(VerifyError::InvalidPublicInputCount)
    );
    assert_eq!(
        ZKVerifier::bn256_pairing_input(&proof, &none, &vk),
        Err(VerifyError::InvalidPublicInputCount)
    );
    let six = ZKVerifier::parse_public_inputs(&vec![scalar(6)]).unwrap();
    assert_eq!(ZKVerifier::verify_groth16(&proof, &six, &vk), Ok(true));
}

#[test]
fn counter_moves_only_on_acceptance() {
    let vk = multiplier_key();
    let mut v = initialized();
    assert_eq!(v.verify_with_key(&vk, valid_proof(), vec![scalar(6)]), Ok(true));
    assert_eq!(v.get_verified_count(), 1);
    assert_eq!(v.verify_with_key(&vk, valid_proof(), vec![scalar(5)]), Ok(false));
    assert_eq!(v.get_verified_count(), 1);
    assert_eq!(
        v.verify_with_key(&vk, vec![0u8; 10], vec![scalar(6)]),
        Err(VerifyError::InvalidLength)
    );
    assert_eq!(v.get_verified_count(), 1);
    assert_eq!(v.verify_with_key(&vk, valid_proof(), vec![scalar(6)]), Ok(true));
    assert_eq!(v.get_verified_count(), 2);
    assert_eq!(v.get_owner(), [7u8; 20]);
    assert!(v.is_initialized());
}

#[test]
fn deployed_key_fails_closed() {
    let mut v = initialized();
    assert_eq!(v.verify(valid_proof(), vec![scalar(6)]), Err(VerifyError::PointNotOnCurve));
    assert_eq!(v.verify(vec![0u8; 3], vec![scalar(6)]), Err(VerifyError::InvalidLength));
    assert_eq!(
        v.verify(valid_proof(), vec![vec![1u8; 5]]),
        Err(VerifyError::InvalidPublicInputSize)
    );
    assert_eq!(
        ZKVerifier::precompile_input(valid_proof(), vec![scalar(6)]),
        Err(VerifyError::PointNotOnCurve)
    );
    assert_eq!(v.get_verified_count(), 0);
}

#[test]
fn second_initialize_is_refused() {
    let mut v = ZKVerifier::new();
    assert!(!v.is_initialized());
    assert_eq!(v.get_verified_count(), 0);
    assert_eq!(v.initialize([1u8; 20]), Ok(()));
    let vk = multiplier_key();
    assert_eq!(v.verify_with_key(&vk, valid_proof(), vec![scalar(6)]), Ok(true));
    assert_eq!(v.initialize([2u8; 20]), Err(VerifyError::AlreadyInitialized));
    assert_eq!(v.get_owner(), [1u8; 20]);
    assert_eq!(v.get_verified_count(), 1);
    assert!(v.is_initialized());
}

#[test]
fn delegated_input_layout() {
    let vk = multiplier_key();
    let input = ZKVerifier::precompile_input_with_key(&vk, valid_proof(), vec![scalar(6)]).unwrap();
    assert_eq!(input.len(), 768);
    let a = g1(1775);
    assert_eq!(&input[0..32], &word(a.x));
    assert_eq!(&input[32..64], &word(a.y));
    assert_eq!(&input[64..192], &valid_proof()[64..192]);
    let neg_alpha = -g1(5);
    assert_eq!(&input[192..224], &word(neg_alpha.x));
    assert_eq!(&input[224..256], &word(neg_alpha.y));
    let neg_l = -g1(131);
    assert_eq!(&input[384..416], &word(neg_l.x));
    assert_eq!(&input[416..448], &word(neg_l.y));
    assert_eq!(&input[448..480], &word(g2(11).x.c0));
    let neg_c = -g1(23);
    assert_eq!(&input[576..608], &word(neg_c.x));
    assert_eq!(&input[608..640], &word(neg_c.y));
    assert_eq!(&input[736..768], &word(g2(13).y.c1));
}

#[test]
fn backends_agree() {
    let vk = multiplier_key();
    let cases = vec![
        (valid_proof(), 6u64),
        (valid_proof(), 7u64),
        (proof_bytes(g1(1776), g2(1), g1(23)), 6u64),
    ];
    for (proof, c) in cases {
        let mut native = initialized();
        let n = native.verify_with_key(&vk, proof.clone(), vec![scalar(c)]);
        let input = ZKVerifier::precompile_input_with_key(&vk, proof, vec![scalar(c)]).unwrap();
        let mut delegated = initialized();
        let d = delegated.verify_with_precompile(Some(host_pairing_check(&input)));
        assert_eq!(n, d);
        assert_eq!(native.get_verified_count(), delegated.get_verified_count());
    }
}

#[test]
fn identity_commitment_is_encoded_as_zeros() {
    // With ic = [19 G1, -19 G1] and input 1 the commitment is the identity.
    let vk = VerifyingKey::from_words(
        &g1_words(g1(5)),
        &g2_words(g2(7)),
        &g2_words(g2(11)),
        &g2_words(g2(13)),
        &vec![g1_words(g1(19)), g1_words(-g1(19))],
    )
    .unwrap();
    // e(A, B) must equal e(G1, G2)^(5 * 7 + 0 + 23 * 13) = ^334.
    let proof = proof_bytes(g1(334), g2(1), g1(23));
    let input = ZKVerifier::precompile_input_with_key(&vk, proof.clone(), vec![scalar(1)]).unwrap();
    assert!(input[384..448].iter().all(|b| *b == 0));
    let mut v = initialized();
    assert_eq!(v.verify_with_key(&vk, proof, vec![scalar(1)]), Ok(true));
    assert_eq!(v.verify_with_precompile(Some(host_pairing_check(&input))), Ok(true));
}

#[test]
fn precompile_answers_are_read() {
    let mut v = initialized();
    let mut yes = vec![0u8; 32];
    yes[31] = 1;
    assert_eq!(v.verify_with_precompile(Some(yes)), Ok(true));
    assert_eq!(v.get_verified_count(), 1);
    assert_eq!(v.verify_with_precompile(Some(vec![0u8; 32])), Ok(false));
    let mut two = vec![0u8; 32];
    two[31] = 2;
    assert_eq!(v.verify_with_precompile(Some(two)), Ok(false));
    let mut short = vec![0u8; 31];
    short[30] = 1;
    assert_eq!(v.verify_with_precompile(Some(short)), Err(VerifyError::PrecompileCallFailed));
    assert_eq!(v.verify_with_precompile(Some(vec![0u8; 33])), Err(VerifyError::PrecompileCallFailed));
    assert_eq!(v.verify_with_precompile(None), Err(VerifyError::PrecompileCallFailed));
    assert_eq!(v.get_verified_count(), 1);
}

#[test]
fn restored_state_keeps_counting() {
    let vk = multiplier_key();
    let mut v = ZKVerifier::from_state([9u8; 20], 41, true);
    assert_eq!(v.get_owner(), [9u8; 20]);
    assert_eq!(v.get_verified_count(), 41);
    assert!(v.is_initialized());
    assert_eq!(v.initialize([1u8; 20]), Err(VerifyError::AlreadyInitialized));
    assert_eq!(v.verify_with_key(&vk, valid_proof(), vec![scalar(6)]), Ok(true));
    assert_eq!(v.get_verified_count(), 42);
}

#[test]
fn twist_point_outside_subgroup_is_rejected() {
    let mut k = 1u64;
    let b = loop {
        let x = Fq2::new(Fq::from(k), Fq::from(0u64));
        if let Some(p) = G2Affine::get_point_from_x_unchecked(x, false) {
            if !p.is_in_correct_subgroup_assuming_on_curve() {
                break p;
            }
        }
        k += 1;
    };
    assert!(b.is_on_curve());
    let vk = multiplier_key();
    let mut v = initialized();
    let proof = proof_bytes(g1(1775), b, g1(23));
    assert!(Groth16Proof::from_uncompressed_bytes(&proof).is_ok());
    assert_eq!(v.verify_with_key(&vk, proof, vec![scalar(6)]), Ok(false));
    assert_eq!(v.get_verified_count(), 0);
}
