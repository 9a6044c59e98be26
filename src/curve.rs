use vstd::prelude::*;
use ark_bn254::{Fq, Fq2, G1Affine, G2Affine};
use ark_ec::{AffineRepr, CurveGroup};
use ark_ff::{BigInteger, PrimeField};
use crate::field::{base_modulus, be_value};

verus! {

/// A point of G1 held as plain values: 32-byte big-endian coordinates and a
/// flag for the point at infinity.
#[derive(Clone, Copy, Debug)]
pub struct G1Point {
    pub x: [u8; 32],
    pub y: [u8; 32],
    pub infinity: bool,
}

/// A point of the quadratic twist (G2): each coordinate is an element
/// `c0 + c1 * u` of the extension field, `u^2 = -1`, held as two 32-byte
/// big-endian words.
#[derive(Clone, Copy, Debug)]
pub struct G2Point {
    pub x0: [u8; 32],
    pub x1: [u8; 32],
    pub y0: [u8; 32],
    pub y1: [u8; 32],
}

/// The integer coordinates of a G1 point.
pub struct G1Coords {
    pub x: nat,
    pub y: nat,
    pub infinity: bool,
}

/// The integer coordinates of a G2 point.
pub struct G2Coords {
    pub x0: nat,
    pub x1: nat,
    pub y0: nat,
    pub y1: nat,
}

impl View for G1Point {
    type V = G1Coords;

    open spec fn view(&self) -> G1Coords {
        G1Coords { x: be_value(self.x@), y: be_value(self.y@), infinity: self.infinity }
    }
}

impl View for G2Point {
    type V = G2Coords;

    open spec fn view(&self) -> G2Coords {
        G2Coords {
            x0: be_value(self.x0@),
            x1: be_value(self.x1@),
            y0: be_value(self.y0@),
            y1: be_value(self.y1@),
        }
    }
}

/// The G1 curve equation `y^2 = x^3 + 3` over the base field; the point at
/// infinity satisfies it by convention.
pub open spec fn g1_on_curve(c: G1Coords) -> bool {
    c.infinity || (c.y * c.y) % base_modulus() == (c.x * c.x * c.x + 3) % base_modulus()
}

/// Real part of the product of two extension-field elements.
pub open spec fn fq2_mul_re(a0: int, a1: int, b0: int, b1: int) -> int {
    (a0 * b0 - a1 * b1) % (base_modulus() as int)
}

/// Imaginary part of the product of two extension-field elements.
pub open spec fn fq2_mul_im(a0: int, a1: int, b0: int, b1: int) -> int {
    (a0 * b1 + a1 * b0) % (base_modulus() as int)
}

/// Real part of the twist's coefficient `b' = 3 / (9 + u)`.
pub open spec fn twist_b_re() -> int {
    19485874751759354771024239261021720505790618469301721065564631296452457478373int
}

/// Imaginary part of the twist's coefficient `b' = 3 / (9 + u)`.
pub open spec fn twist_b_im() -> int {
    266929791119991161246907387137283842545076965332900288569378510910307636690int
}

/// The twisted curve equation `y^2 = x^3 + b'` over the quadratic extension.
pub open spec fn g2_on_curve(c: G2Coords) -> bool {
    let p = base_modulus() as int;
    let (x0, x1, y0, y1) = (c.x0 as int, c.x1 as int, c.y0 as int, c.y1 as int);
    let (sq0, sq1) = (fq2_mul_re(x0, x1, x0, x1), fq2_mul_im(x0, x1, x0, x1));
    let (cube0, cube1) = (fq2_mul_re(sq0, sq1, x0, x1), fq2_mul_im(sq0, sq1, x0, x1));
    &&& fq2_mul_re(y0, y1, y0, y1) == (cube0 + twist_b_re()) % p
    &&& fq2_mul_im(y0, y1, y0, y1) == (cube1 + twist_b_im()) % p
}

/// The negation of a G1 point: `(x, -y)`, coordinates reduced.
pub open spec fn g1_neg_spec(c: G1Coords) -> G1Coords {
    let p = base_modulus();
    G1Coords { x: c.x % p, y: ((p - c.y % p) % (p as int)) as nat, infinity: c.infinity }
}

/// The sum of two G1 points under the curve's group law.
pub uninterp spec fn g1_add_of(p: G1Coords, q: G1Coords) -> G1Coords;

/// The multiple `k * p` of a G1 point under the curve's group law.
pub uninterp spec fn g1_mul_of(p: G1Coords, k: nat) -> G1Coords;

/// Whether a G2 point lies in the subgroup of prime order `r`.
pub uninterp spec fn g2_subgroup_of(q: G2Coords) -> bool;

/// Negating a point keeps it on the curve.
pub proof fn lemma_neg_on_curve(c: G1Coords)
    requires
        g1_on_curve(c),
    ensures
        g1_on_curve(g1_neg_spec(c)),
{
    let p = base_modulus() as int;
    let n = g1_neg_spec(c);
    if !c.infinity {
        let y = c.y as int;
        let ny = n.y as int;
        let x = c.x as int;
        let nx = n.x as int;
        assert(ny == (-y) % p) by {
            vstd::arithmetic::div_mod::lemma_add_mod_noop(p, -y, p);
            vstd::arithmetic::div_mod::lemma_mod_self_0(p);
            vstd::arithmetic::div_mod::lemma_mod_twice(-y, p);
            vstd::arithmetic::div_mod::lemma_sub_mod_noop(p, y, p);
        }
        assert((ny * ny) % p == (y * y) % p) by {
            vstd::arithmetic::div_mod::lemma_mul_mod_noop(-y, -y, p);
            vstd::arithmetic::div_mod::lemma_mul_mod_noop(ny, ny, p);
            vstd::arithmetic::div_mod::lemma_mod_twice(-y, p);
            assert((-y) * (-y) == y * y) by (nonlinear_arith);
        }
        assert((nx * nx * nx + 3) % p == (x * x * x + 3) % p) by {
            vstd::arithmetic::div_mod::lemma_mul_mod_noop(x, x, p);
            vstd::arithmetic::div_mod::lemma_mul_mod_noop(nx, nx, p);
            vstd::arithmetic::div_mod::lemma_mod_twice(x, p);
            vstd::arithmetic::div_mod::lemma_mul_mod_noop(x * x, x, p);
            vstd::arithmetic::div_mod::lemma_mul_mod_noop(nx * nx, nx, p);
            vstd::arithmetic::div_mod::lemma_add_mod_noop(x * x * x, 3, p);
            vstd::arithmetic::div_mod::lemma_add_mod_noop(nx * nx * nx, 3, p);
        }
    }
}

/// Relies on `ark_ec::short_weierstrass::Affine::is_on_curve` for G1: true for
/// the point at infinity, else whether `y^2 = x^3 + 3` in the base field.
#[verifier::external_body]
pub(crate) fn g1_is_on_curve(a: &G1Point) -> (r: bool)
    ensures
        r == g1_on_curve(a@),
{
    let fq = |b: &[u8; 32]| Fq::from_be_bytes_mod_order(b);
    G1Affine { x: fq(&a.x), y: fq(&a.y), infinity: a.infinity }.is_on_curve()
}

/// Relies on `ark_ec::short_weierstrass::Affine::is_on_curve` for G2: whether
/// `y^2 = x^3 + b'` in the extension field, with `b'` the twist coefficient
/// `ark_bn254::g2::Config::COEFF_B`.
#[verifier::external_body]
pub(crate) fn g2_is_on_curve(a: &G2Point) -> (r: bool)
    ensures
        r == g2_on_curve(a@),
{
    let fq = |b: &[u8; 32]| Fq::from_be_bytes_mod_order(b);
    G2Affine::new_unchecked(Fq2::new(fq(&a.x0), fq(&a.x1)), Fq2::new(fq(&a.y0), fq(&a.y1)))
        .is_on_curve()
}

/// Relies on `ark_ec::short_weierstrass::Affine::is_in_correct_subgroup_assuming_on_curve`
/// for G2: whether the point lies in the subgroup of prime order `r`.
#[verifier::external_body]
pub(crate) fn g2_in_subgroup(a: &G2Point) -> (r: bool)
    ensures
        r == g2_subgroup_of(a@),
{
    let fq = |b: &[u8; 32]| Fq::from_be_bytes_mod_order(b);
    G2Affine::new_unchecked(Fq2::new(fq(&a.x0), fq(&a.x1)), Fq2::new(fq(&a.y0), fq(&a.y1)))
        .is_in_correct_subgroup_assuming_on_curve()
}

/// Relies on `Neg` for `ark_ec::short_weierstrass::Affine`, which keeps `x`
/// and the infinity flag and replaces `y` by `-y` in the base field.
#[verifier::external_body]
pub(crate) fn g1_neg(a: &G1Point) -> (r: G1Point)
    ensures
        r@ == g1_neg_spec(a@),
{
    let fq = |b: &[u8; 32]| Fq::from_be_bytes_mod_order(b);
    let n = -G1Affine { x: fq(&a.x), y: fq(&a.y), infinity: a.infinity };
    let out = |f: Fq| -> [u8; 32] { f.into_bigint().to_bytes_be().try_into().unwrap() };
    G1Point { x: out(n.x), y: out(n.y), infinity: n.infinity }
}

/// Relies on `Add` for `ark_ec::short_weierstrass::Affine` followed by
/// `CurveGroup::into_affine`: the group sum, which stays on the curve when both
/// summands are on it.
#[verifier::external_body]
pub(crate) fn g1_add(a: &G1Point, b: &G1Point) -> (r: G1Point)
    ensures
        r@ == g1_add_of(a@, b@),
        g1_on_curve(a@) && g1_on_curve(b@) ==> g1_on_curve(r@),
{
    let fq = |b: &[u8; 32]| Fq::from_be_bytes_mod_order(b);
    let s = (G1Affine { x: fq(&a.x), y: fq(&a.y), infinity: a.infinity }
        + G1Affine { x: fq(&b.x), y: fq(&b.y), infinity: b.infinity }).into_affine();
    let out = |f: Fq| -> [u8; 32] { f.into_bigint().to_bytes_be().try_into().unwrap() };
    G1Point { x: out(s.x), y: out(s.y), infinity: s.infinity }
}

/// Relies on `AffineRepr::mul_bigint` followed by `CurveGroup::into_affine`:
/// the multiple `k * a` for the scalar `k` read from `s` modulo `r`, which stays
/// on the curve when `a` is on it.
#[verifier::external_body]
pub(crate) fn g1_mul(a: &G1Point, s: &[u8; 32]) -> (r: G1Point)
    ensures
        r@ == g1_mul_of(a@, be_value(s@) % crate::field::scalar_modulus()),
        g1_on_curve(a@) ==> g1_on_curve(r@),
{
    let fq = |b: &[u8; 32]| Fq::from_be_bytes_mod_order(b);
    let k = ark_bn254::Fr::from_be_bytes_mod_order(s).into_bigint();
    let m = G1Affine { x: fq(&a.x), y: fq(&a.y), infinity: a.infinity }.mul_bigint(k).into_affine();
    let out = |f: Fq| -> [u8; 32] { f.into_bigint().to_bytes_be().try_into().unwrap() };
    G1Point { x: out(m.x), y: out(m.y), infinity: m.infinity }
}

} // verus!
