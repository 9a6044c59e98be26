use vstd::prelude::*;
use ark_bn254::{Bn254, Fq, Fq12, Fq2, G1Affine, G2Affine};
use ark_ec::pairing::Pairing;
use ark_ff::{BigInteger, Field, PrimeField};
use ark_std::One;
use crate::curve::{
    g1_add, g1_add_of, g1_mul, g1_mul_of, g1_neg, g1_neg_spec, g1_on_curve, g2_in_subgroup,
    g2_on_curve, g2_subgroup_of, lemma_neg_on_curve, G1Coords, G1Point, G2Coords, G2Point,
};
use crate::field::{be_bytes, be_value, lemma_be_bytes_of_value};

verus! {

/// One term `(P, Q)` of a pairing product, as coordinates.
pub type PairingTerm = (G1Coords, G2Coords);

/// The coordinates of a sequence of pairing terms.
pub open spec fn terms_view(terms: Seq<(G1Point, G2Point)>) -> Seq<PairingTerm> {
    terms.map_values(|t: (G1Point, G2Point)| (t.0@, t.1@))
}

/// The public-input commitment over the first `n` inputs:
/// `ic[0] + ic[1] * inputs[0] + ... + ic[n] * inputs[n - 1]`.
pub open spec fn commitment_prefix(ic: Seq<G1Coords>, inputs: Seq<nat>, n: nat) -> G1Coords
    decreases n,
{
    if n == 0 {
        ic[0]
    } else {
        g1_add_of(
            commitment_prefix(ic, inputs, (n - 1) as nat),
            g1_mul_of(ic[n as int], inputs[n - 1]),
        )
    }
}

/// The public-input commitment `L = ic[0] + sum_i ic[i + 1] * inputs[i]`.
pub open spec fn commitment(ic: Seq<G1Coords>, inputs: Seq<nat>) -> G1Coords {
    commitment_prefix(ic, inputs, inputs.len())
}

/// The four terms of the combined Groth16 check
/// `e(A, B) * e(-alpha, beta) * e(-L, gamma) * e(-C, delta) == 1`.
pub open spec fn groth16_terms(
    a: G1Coords,
    b: G2Coords,
    c: G1Coords,
    alpha: G1Coords,
    beta: G2Coords,
    gamma: G2Coords,
    delta: G2Coords,
    l: G1Coords,
) -> Seq<PairingTerm> {
    seq![(a, b), (g1_neg_spec(alpha), beta), (g1_neg_spec(l), gamma), (g1_neg_spec(c), delta)]
}

/// The target-group element that a product of pairings takes, as the
/// big-endian words of its twelve base-field coefficients.
pub uninterp spec fn multi_pairing_of(terms: Seq<PairingTerm>) -> Seq<u8>;

/// The multiplicative identity of the target group in the same encoding:
/// coefficient `c0.c0.c0` is one, the other eleven are zero.
pub open spec fn gt_one_bytes() -> Seq<u8> {
    Seq::new(384, |i: int| if i == 31 { 1u8 } else { 0u8 })
}

/// The additive identity (zero) of the target field in the same encoding.
pub open spec fn gt_zero_bytes() -> Seq<u8> {
    Seq::new(384, |i: int| 0u8)
}

/// The multiplicative identity, against which a pairing product is compared,
/// is not the zero element.
pub proof fn lemma_gt_one_is_not_zero()
    ensures
        gt_one_bytes() != gt_zero_bytes(),
{
    assert(gt_one_bytes()[31] != gt_zero_bytes()[31]);
}

/// Whether every G2 point of the terms lies in the prime-order subgroup.
pub open spec fn g2_all_in_subgroup(terms: Seq<PairingTerm>) -> bool {
    forall|i: int| 0 <= i < terms.len() ==> g2_subgroup_of(#[trigger] terms[i].1)
}

/// The in-process verdict on pairing terms: the product of pairings is the
/// multiplicative identity of the target group. Terms whose G2 point lies
/// outside the prime-order subgroup are rejected without pairing.
pub open spec fn pairing_product_is_one(terms: Seq<PairingTerm>) -> bool {
    g2_all_in_subgroup(terms) && multi_pairing_of(terms) == gt_one_bytes()
}

/// Whether every point of the terms satisfies its curve equation.
pub open spec fn terms_on_curve(terms: Seq<PairingTerm>) -> bool {
    forall|i: int|
        0 <= i < terms.len() ==> g1_on_curve(#[trigger] terms[i].0) && g2_on_curve(terms[i].1)
}

/// Relies on `Pairing::multi_pairing` for `ark_bn254::Bn254`: the product of
/// the pairings of the terms, written out by `Field::to_base_prime_field_elements`
/// as twelve 32-byte big-endian words. `multi_pairing` unwraps
/// `final_exponentiation`, which fails only on a zero Miller-loop value; that
/// cannot arise for on-curve points whose G2 points lie in the prime-order subgroup.
#[verifier::external_body]
fn multi_pairing(terms: &Vec<(G1Point, G2Point)>) -> (r: Vec<u8>)
    requires
        terms_on_curve(terms_view(terms@)),
        g2_all_in_subgroup(terms_view(terms@)),
    ensures
        r@ == multi_pairing_of(terms_view(terms@)),
{
    let fq = |b: &[u8; 32]| Fq::from_be_bytes_mod_order(b);
    let g1 = terms.iter().map(|t| G1Affine { x: fq(&t.0.x), y: fq(&t.0.y), infinity: t.0.infinity });
    let g2 = terms.iter().map(
        |t| G2Affine::new_unchecked(Fq2::new(fq(&t.1.x0), fq(&t.1.x1)), Fq2::new(fq(&t.1.y0), fq(&t.1.y1))),
    );
    let out = Bn254::multi_pairing(g1, g2).0;
    out.to_base_prime_field_elements().flat_map(|e| e.into_bigint().to_bytes_be()).collect()
}

/// Relies on `One::one` for `ark_bn254::Fq12`, written out as in
/// `multi_pairing`: the coefficient `c0.c0.c0` is one and all others are zero.
#[verifier::external_body]
fn gt_one() -> (r: Vec<u8>)
    ensures
        r@ == gt_one_bytes(),
{
    let one = <Fq12 as One>::one();
    one.to_base_prime_field_elements().flat_map(|e| e.into_bigint().to_bytes_be()).collect()
}

/// Whether two byte strings are equal.
fn bytes_equal(a: &Vec<u8>, b: &Vec<u8>) -> (r: bool)
    ensures
        r == (a@ == b@),
{
    if a.len() != b.len() {
        return false;
    }
    let mut i: usize = 0;
    while i < a.len()
        invariant
            a@.len() == b@.len(),
            i <= a@.len(),
            forall|j: int| 0 <= j < i ==> a@[j] == b@[j],
        decreases a@.len() - i,
    {
        if a[i] != b[i] {
            return false;
        }
        i = i + 1;
    }
    assert(a@ =~= b@);
    true
}

/// Evaluates the product of pairings of the terms in process and compares it
/// with the multiplicative identity of the target group.
pub fn pairing_check(terms: &Vec<(G1Point, G2Point)>) -> (r: bool)
    requires
        terms_on_curve(terms_view(terms@)),
    ensures
        r == pairing_product_is_one(terms_view(terms@)),
{
    let ghost tv = terms_view(terms@);
    let mut i: usize = 0;
    while i < terms.len()
        invariant
            i <= terms@.len(),
            tv == terms_view(terms@),
            forall|j: int| 0 <= j < i ==> g2_subgroup_of(#[trigger] tv[j].1),
        decreases terms@.len() - i,
    {
        if !g2_in_subgroup(&terms[i].1) {
            assert(!g2_subgroup_of(tv[i as int].1));
            return false;
        }
        i = i + 1;
    }
    let product = multi_pairing(terms);
    let one = gt_one();
    bytes_equal(&product, &one)
}

/// The scalars of public inputs held as 32-byte words.
pub open spec fn scalars_of(inputs: Seq<[u8; 32]>) -> Seq<nat> {
    inputs.map_values(|w: [u8; 32]| be_value(w@) % crate::field::scalar_modulus())
}

/// Computes `ic[0] + sum_i ic[i + 1] * inputs[i]` from on-curve `ic` points.
pub fn commit_public_inputs(ic: &Vec<G1Point>, inputs: &Vec<[u8; 32]>) -> (l: G1Point)
    requires
        ic@.len() == inputs@.len() + 1,
        forall|i: int| 0 <= i < ic@.len() ==> g1_on_curve(#[trigger] ic@[i]@),
    ensures
        l@ == commitment(ic@.map_values(|p: G1Point| p@), scalars_of(inputs@)),
        g1_on_curve(l@),
{
    let ghost icv = ic@.map_values(|p: G1Point| p@);
    let ghost sc = scalars_of(inputs@);
    let mut acc = ic[0];
    let mut i: usize = 0;
    while i < inputs.len()
        invariant
            i <= inputs@.len(),
            ic@.len() == inputs@.len() + 1,
            icv == ic@.map_values(|p: G1Point| p@),
            sc == scalars_of(inputs@),
            forall|j: int| 0 <= j < ic@.len() ==> g1_on_curve(#[trigger] ic@[j]@),
            acc@ == commitment_prefix(icv, sc, i as nat),
            g1_on_curve(acc@),
        decreases inputs@.len() - i,
    {
        let term = g1_mul(&ic[i + 1], &inputs[i]);
        acc = g1_add(&acc, &term);
        i = i + 1;
    }
    acc
}

/// Assembles the four pairing terms of the Groth16 check from on-curve points.
pub fn assemble_terms(
    a: &G1Point,
    b: &G2Point,
    c: &G1Point,
    alpha: &G1Point,
    beta: &G2Point,
    gamma: &G2Point,
    delta: &G2Point,
    l: &G1Point,
) -> (terms: Vec<(G1Point, G2Point)>)
    requires
        g1_on_curve(a@),
        g1_on_curve(c@),
        g1_on_curve(alpha@),
        g1_on_curve(l@),
        g2_on_curve(b@),
        g2_on_curve(beta@),
        g2_on_curve(gamma@),
        g2_on_curve(delta@),
    ensures
        terms_view(terms@) == groth16_terms(a@, b@, c@, alpha@, beta@, gamma@, delta@, l@),
        terms_on_curve(terms_view(terms@)),
{
    proof {
        lemma_neg_on_curve(alpha@);
        lemma_neg_on_curve(l@);
        lemma_neg_on_curve(c@);
    }
    let terms = vec![(*a, *b), (g1_neg(alpha), *beta), (g1_neg(l), *gamma), (g1_neg(c), *delta)];
    assert(terms_view(terms@) =~= groth16_terms(a@, b@, c@, alpha@, beta@, gamma@, delta@, l@));
    terms
}

/// The 64-byte encoding `x || y` of a G1 point; the point at infinity is
/// written as 64 zero bytes.
pub open spec fn encode_g1(p: G1Coords) -> Seq<u8> {
    if p.infinity {
        Seq::new(64, |i: int| 0u8)
    } else {
        be_bytes(p.x, 32) + be_bytes(p.y, 32)
    }
}

/// The 128-byte encoding `x0 || x1 || y0 || y1` of a G2 point.
pub open spec fn encode_g2(q: G2Coords) -> Seq<u8> {
    be_bytes(q.x0, 32) + be_bytes(q.x1, 32) + be_bytes(q.y0, 32) + be_bytes(q.y1, 32)
}

/// The input of the host pairing-check primitive: each term as its G1 point
/// followed by its G2 point, 192 bytes per term.
pub open spec fn encode_terms(terms: Seq<PairingTerm>) -> Seq<u8>
    decreases terms.len(),
{
    if terms.len() == 0 {
        Seq::empty()
    } else {
        encode_terms(terms.drop_last()) + encode_g1(terms.last().0) + encode_g2(terms.last().1)
    }
}

fn append_word(out: &mut Vec<u8>, w: &[u8; 32])
    ensures
        final(out)@ == old(out)@ + be_bytes(be_value(w@), 32),
{
    proof { lemma_be_bytes_of_value(w@); }
    let mut i: usize = 0;
    while i < 32
        invariant
            i <= 32,
            out@ == old(out)@ + w@.subrange(0, i as int),
        decreases 32 - i,
    {
        out.push(w[i]);
        i = i + 1;
        assert(out@ =~= old(out)@ + w@.subrange(0, i as int));
    }
    assert(w@.subrange(0, 32) =~= w@);
}

fn append_g1(out: &mut Vec<u8>, p: &G1Point)
    ensures
        final(out)@ == old(out)@ + encode_g1(p@),
{
    if p.infinity {
        let mut i: usize = 0;
        while i < 64
            invariant
                i <= 64,
                out@ == old(out)@ + Seq::new(i as nat, |j: int| 0u8),
            decreases 64 - i,
        {
            out.push(0u8);
            i = i + 1;
            assert(out@ =~= old(out)@ + Seq::new(i as nat, |j: int| 0u8));
        }
    } else {
        append_word(out, &p.x);
        append_word(out, &p.y);
        assert(out@ =~= old(out)@ + encode_g1(p@));
    }
}

fn append_g2(out: &mut Vec<u8>, q: &G2Point)
    ensures
        final(out)@ == old(out)@ + encode_g2(q@),
{
    append_word(out, &q.x0);
    append_word(out, &q.x1);
    append_word(out, &q.y0);
    append_word(out, &q.y1);
    assert(out@ =~= old(out)@ + encode_g2(q@));
}

/// Serializes pairing terms into the input layout of the host pairing-check
/// primitive.
pub fn encode_pairing_input(terms: &Vec<(G1Point, G2Point)>) -> (out: Vec<u8>)
    ensures
        out@ == encode_terms(terms_view(terms@)),
{
    let ghost tv = terms_view(terms@);
    let mut out: Vec<u8> = Vec::new();
    let mut i: usize = 0;
    while i < terms.len()
        invariant
            i <= terms@.len(),
            tv == terms_view(terms@),
            out@ == encode_terms(tv.subrange(0, i as int)),
        decreases terms@.len() - i,
    {
        append_g1(&mut out, &terms[i].0);
        append_g2(&mut out, &terms[i].1);
        proof {
            let next = tv.subrange(0, i + 1);
            assert(next.drop_last() =~= tv.subrange(0, i as int));
        }
        i = i + 1;
    }
    assert(tv.subrange(0, terms@.len() as int) =~= tv);
    out
}

/// What the answer of the host pairing-check primitive means: no answer, or an
/// answer that is not 32 bytes long, is a failed call; otherwise the check
/// holds exactly when the last byte is 1.
pub open spec fn pairing_answer_verdict(answer: Option<Seq<u8>>) -> Result<bool, crate::error::VerifyError> {
    match answer {
        None => Err(crate::error::VerifyError::PrecompileCallFailed),
        Some(word) => if word.len() != 32 {
            Err(crate::error::VerifyError::PrecompileCallFailed)
        } else {
            Ok(word[31] == 1)
        },
    }
}

/// Reads the answer of the host pairing-check primitive.
pub fn read_pairing_answer(answer: &Option<Vec<u8>>) -> (r: Result<bool, crate::error::VerifyError>)
    ensures
        r == pairing_answer_verdict(match answer {
            Some(w) => Some(w@),
            None => None,
        }),
{
    match answer {
        None => Err(crate::error::VerifyError::PrecompileCallFailed),
        Some(word) => {
            if word.len() != 32 {
                Err(crate::error::VerifyError::PrecompileCallFailed)
            } else {
                Ok(word[31] == 1)
            }
        },
    }
}

} // verus!
