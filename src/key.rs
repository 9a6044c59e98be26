use vstd::prelude::*;
use crate::curve::{g1_is_on_curve, g1_on_curve, g2_is_on_curve, g2_on_curve, G1Coords, G1Point, G2Coords, G2Point};
use crate::error::VerifyError;
use crate::field::{base_modulus, be_value, reduce_base};

verus! {

// The 32-byte big-endian coordinate words of the key deployed with this
// verifier, for the multiplier circuit `a * b = c`, whose one public input is
// `c`. They are checked against the curve equations on every load.
pub const ALPHA_G1_X: [u8; 32] = [
    0x20, 0x49, 0x1b, 0xbb, 0x48, 0x6e, 0x5b, 0x0b,
    0x8d, 0x96, 0x6c, 0x44, 0x36, 0x89, 0xe0, 0x5e,
    0xf0, 0x25, 0x87, 0x64, 0x42, 0x0f, 0x28, 0x7a,
    0x94, 0xb4, 0x38, 0x2a, 0xf7, 0x4f, 0xb5, 0x5e,
];

pub const ALPHA_G1_Y: [u8; 32] = [
    0x2f, 0xe2, 0xe8, 0x43, 0x67, 0x5e, 0xdf, 0x0f,
    0x2d, 0x10, 0xaa, 0x8e, 0xfc, 0x16, 0x5e, 0x17,
    0x39, 0xf0, 0x5d, 0x81, 0x67, 0x4b, 0x72, 0x15,
    0x3e, 0x89, 0xb0, 0x11, 0x8b, 0x8d, 0x65, 0xae,
];

pub const BETA_G2_X0: [u8; 32] = [
    0x1f, 0x32, 0x86, 0x5d, 0x2a, 0xf6, 0x03, 0x4e,
    0xf7, 0xd6, 0xe5, 0x4f, 0xe2, 0xd6, 0xce, 0x8f,
    0x2f, 0x16, 0x89, 0xc2, 0xf0, 0x83, 0x8e, 0x6d,
    0x20, 0xf4, 0x23, 0x1f, 0x5b, 0x1f, 0x3b, 0xd0,
];

pub const BETA_G2_X1: [u8; 32] = [
    0x14, 0xce, 0x8d, 0x94, 0xd5, 0x2d, 0x2d, 0x5e,
    0x8c, 0x7e, 0x2b, 0xe9, 0xd6, 0x7b, 0x33, 0xdf,
    0x09, 0xbc, 0x92, 0x0e, 0x1f, 0x02, 0xa8, 0x8d,
    0x45, 0xb9, 0x72, 0x8f, 0x31, 0x94, 0x2a, 0x46,
];

pub const BETA_G2_Y0: [u8; 32] = [
    0x08, 0x79, 0xd6, 0xf3, 0x68, 0x8e, 0x4f, 0xe3,
    0x12, 0x45, 0xf8, 0x84, 0xca, 0xb5, 0xc4, 0x8d,
    0x3e, 0x26, 0x82, 0xf0, 0x1a, 0x9c, 0x5d, 0xbc,
    0x2e, 0x34, 0xa1, 0x8f, 0xf4, 0x26, 0x95, 0x30,
];

pub const BETA_G2_Y1: [u8; 32] = [
    0x25, 0x4f, 0x58, 0xd6, 0xd8, 0x95, 0x57, 0x1b,
    0x24, 0x2c, 0x43, 0x4f, 0xb8, 0x0e, 0x49, 0xbb,
    0x1f, 0x7b, 0x2f, 0x23, 0xaf, 0xa3, 0x85, 0xfc,
    0x3e, 0x0f, 0xc0, 0x1d, 0x2e, 0x1a, 0x61, 0x72,
];

pub const GAMMA_G2_X0: [u8; 32] = [
    0x19, 0x8e, 0x99, 0x52, 0xf6, 0xdb, 0xc3, 0xf2,
    0x5a, 0xa0, 0xa8, 0x77, 0x5e, 0x97, 0xf3, 0x0d,
    0x06, 0x15, 0x52, 0x42, 0xf0, 0xbb, 0x5c, 0xf8,
    0xbb, 0x23, 0x0e, 0x38, 0xb1, 0xe3, 0xc1, 0xfc,
];

pub const GAMMA_G2_X1: [u8; 32] = [
    0x1a, 0xe3, 0xfc, 0xc7, 0x6e, 0x1e, 0xeb, 0x76,
    0x8d, 0x1f, 0xda, 0xcd, 0x03, 0x46, 0x77, 0x67,
    0xaf, 0x3e, 0xb9, 0x8e, 0xce, 0x83, 0x8e, 0x22,
    0x7f, 0x3f, 0x0e, 0xb5, 0x05, 0x1e, 0x57, 0x2f,
];

pub const GAMMA_G2_Y0: [u8; 32] = [
    0x29, 0x75, 0x98, 0x4f, 0x16, 0x0d, 0x4a, 0xe5,
    0x83, 0x42, 0x28, 0x70, 0x91, 0x10, 0x15, 0x5a,
    0x08, 0x59, 0x70, 0x62, 0x6c, 0x89, 0x4c, 0x0e,
    0xcc, 0xf9, 0x46, 0x0e, 0xf4, 0x73, 0x2d, 0x29,
];

pub const GAMMA_G2_Y1: [u8; 32] = [
    0x03, 0xd8, 0x28, 0x7a, 0xd1, 0x8e, 0x8b, 0x85,
    0xd4, 0x0a, 0x92, 0x28, 0x37, 0x3c, 0x65, 0x36,
    0x58, 0xf8, 0x26, 0x4f, 0x3f, 0x5d, 0x8f, 0x62,
    0x87, 0x5c, 0xa5, 0xee, 0x78, 0x7c, 0x8d, 0x39,
];

pub const DELTA_G2_X0: [u8; 32] = [
    0x0f, 0x1a, 0x8c, 0x20, 0x22, 0x7f, 0x1d, 0x2e,
    0x93, 0xc5, 0xf8, 0x41, 0xa5, 0x7f, 0xc3, 0x8d,
    0x2b, 0x51, 0x6a, 0x8e, 0x1f, 0x95, 0x43, 0x2b,
    0xd0, 0xe9, 0x3f, 0x28, 0x1c, 0x7e, 0x8f, 0x3a,
];

pub const DELTA_G2_X1: [u8; 32] = [
    0x2d, 0x4f, 0x7c, 0x5b, 0x8a, 0xd0, 0x93, 0x42,
    0x1f, 0xe1, 0x31, 0x44, 0x0c, 0x7c, 0x72, 0xc0,
    0x8f, 0x60, 0xd5, 0xfe, 0x52, 0x76, 0xc8, 0x1d,
    0xb2, 0x5e, 0xf0, 0xd7, 0xd2, 0x6a, 0xf2, 0x75,
];

pub const DELTA_G2_Y0: [u8; 32] = [
    0x16, 0xf3, 0xd8, 0xc3, 0xd5, 0xbc, 0x4b, 0x7e,
    0x3a, 0x62, 0x34, 0xf3, 0x22, 0x03, 0x77, 0x84,
    0x29, 0x8f, 0x5b, 0x11, 0xd9, 0xfd, 0xcd, 0x2e,
    0xab, 0x88, 0x16, 0xd1, 0xb7, 0x2b, 0x28, 0x1b,
];

pub const DELTA_G2_Y1: [u8; 32] = [
    0x23, 0x87, 0x0a, 0x3d, 0xf3, 0xad, 0x8e, 0x33,
    0xc9, 0xe8, 0x2a, 0x47, 0x15, 0xe8, 0x0f, 0xd3,
    0x0c, 0x70, 0x23, 0x9e, 0xd2, 0x4e, 0xf1, 0x5d,
    0x0c, 0x8f, 0x2d, 0xa7, 0x98, 0x0c, 0x24, 0x18,
];

pub const IC_0_X: [u8; 32] = [
    0x0a, 0x3d, 0x1d, 0x18, 0xd7, 0x3c, 0x28, 0x4e,
    0x6f, 0x51, 0xba, 0x69, 0x27, 0x8f, 0x2a, 0xce,
    0xf9, 0x4e, 0x26, 0x5e, 0x8d, 0x42, 0x1f, 0x8e,
    0x74, 0x91, 0xc6, 0x35, 0x0d, 0x8f, 0x63, 0x21,
];

pub const IC_0_Y: [u8; 32] = [
    0x2e, 0x89, 0x41, 0x5d, 0x8a, 0x31, 0x58, 0x92,
    0xaf, 0xe2, 0x8d, 0x7f, 0x48, 0x9c, 0x06, 0x6b,
    0x3d, 0x62, 0x38, 0xe8, 0xd8, 0x39, 0x43, 0x5c,
    0x88, 0xf4, 0x0e, 0x9f, 0x56, 0x38, 0xc3, 0x0e,
];

pub const IC_1_X: [u8; 32] = [
    0x18, 0xf2, 0x38, 0x66, 0x2e, 0x95, 0x82, 0x3e,
    0xae, 0x85, 0x17, 0x8c, 0x3c, 0x6b, 0x96, 0xb4,
    0x27, 0xd5, 0xf8, 0x9e, 0x37, 0x10, 0x5c, 0x8d,
    0xf4, 0xa3, 0xc0, 0x2b, 0x28, 0xd6, 0x8e, 0x17,
];

pub const IC_1_Y: [u8; 32] = [
    0x1c, 0x8d, 0x8f, 0x5b, 0x39, 0xe0, 0x5e, 0x20,
    0xf5, 0x0f, 0xc4, 0x46, 0x0e, 0x51, 0x55, 0xd0,
    0x67, 0xa0, 0x8f, 0x64, 0x5e, 0xf8, 0xdd, 0x97,
    0x95, 0xc7, 0x8f, 0xf6, 0xae, 0xb3, 0x8a, 0x2e,
];

/// The G1 point spelled by two coordinate words `x || y`, reduced.
pub open spec fn g1_of_words(w: [[u8; 32]; 2]) -> G1Coords {
    G1Coords {
        x: be_value(w[0]@) % base_modulus(),
        y: be_value(w[1]@) % base_modulus(),
        infinity: false,
    }
}

/// The G2 point spelled by four coordinate words `x0 || x1 || y0 || y1`, reduced.
pub open spec fn g2_of_words(w: [[u8; 32]; 4]) -> G2Coords {
    G2Coords {
        x0: be_value(w[0]@) % base_modulus(),
        x1: be_value(w[1]@) % base_modulus(),
        y0: be_value(w[2]@) % base_modulus(),
        y1: be_value(w[3]@) % base_modulus(),
    }
}

/// The coordinates of a verifying key.
pub struct KeyCoords {
    pub alpha: G1Coords,
    pub beta: G2Coords,
    pub gamma: G2Coords,
    pub delta: G2Coords,
    pub ic: Seq<G1Coords>,
}

/// The key spelled by coordinate words.
pub open spec fn key_of_words(
    alpha: [[u8; 32]; 2],
    beta: [[u8; 32]; 4],
    gamma: [[u8; 32]; 4],
    delta: [[u8; 32]; 4],
    ic: Seq<[[u8; 32]; 2]>,
) -> KeyCoords {
    KeyCoords {
        alpha: g1_of_words(alpha),
        beta: g2_of_words(beta),
        gamma: g2_of_words(gamma),
        delta: g2_of_words(delta),
        ic: ic.map_values(|w: [[u8; 32]; 2]| g1_of_words(w)),
    }
}

/// Whether every point of a key satisfies its curve equation.
pub open spec fn key_on_curve(k: KeyCoords) -> bool {
    &&& g1_on_curve(k.alpha)
    &&& g2_on_curve(k.beta)
    &&& g2_on_curve(k.gamma)
    &&& g2_on_curve(k.delta)
    &&& forall|i: int| 0 <= i < k.ic.len() ==> g1_on_curve(#[trigger] k.ic[i])
}

/// The key deployed with this verifier.
pub open spec fn deployed_key() -> KeyCoords {
    key_of_words(
        [ALPHA_G1_X, ALPHA_G1_Y],
        [BETA_G2_X0, BETA_G2_X1, BETA_G2_Y0, BETA_G2_Y1],
        [GAMMA_G2_X0, GAMMA_G2_X1, GAMMA_G2_Y0, GAMMA_G2_Y1],
        [DELTA_G2_X0, DELTA_G2_X1, DELTA_G2_Y0, DELTA_G2_Y1],
        seq![[IC_0_X, IC_0_Y], [IC_1_X, IC_1_Y]],
    )
}

/// The coordinates of a loaded key, or the error of loading it.
pub open spec fn key_result(r: Result<VerifyingKey, VerifyError>) -> Result<KeyCoords, VerifyError> {
    match r {
        Ok(key) => Ok(key@),
        Err(e) => Err(e),
    }
}

/// The deployed key, or the error that loading it gives.
pub open spec fn deployed_key_result() -> Result<KeyCoords, VerifyError> {
    if key_on_curve(deployed_key()) {
        Ok(deployed_key())
    } else {
        Err(VerifyError::PointNotOnCurve)
    }
}

/// Loading the deployed key is idempotent: two loads give the same key, or
/// the same error, since the result depends on the fixed coordinate words
/// alone.
pub proof fn lemma_load_real_idempotent(first: Result<VerifyingKey, VerifyError>, second: Result<VerifyingKey, VerifyError>)
    requires
        key_result(first) == deployed_key_result(),
        key_result(second) == deployed_key_result(),
    ensures
        key_result(first) == key_result(second),
{
}

/// A Groth16 verifying key `(alpha, beta, gamma, delta, ic)`: `ic[0]` is the
/// constant term of the public-input commitment and `ic[i + 1]` weighs the
/// `i`-th public input. Every point is an affine point on its curve.
#[derive(Debug)]
pub struct VerifyingKey {
    alpha_g1: G1Point,
    beta_g2: G2Point,
    gamma_g2: G2Point,
    delta_g2: G2Point,
    ic: Vec<G1Point>,
}

fn g1_from_words(w: &[[u8; 32]; 2]) -> (r: G1Point)
    ensures
        r@ == g1_of_words(*w),
{
    G1Point { x: reduce_base(&w[0]), y: reduce_base(&w[1]), infinity: false }
}

fn g2_from_words(w: &[[u8; 32]; 4]) -> (r: G2Point)
    ensures
        r@ == g2_of_words(*w),
{
    G2Point {
        x0: reduce_base(&w[0]),
        x1: reduce_base(&w[1]),
        y0: reduce_base(&w[2]),
        y1: reduce_base(&w[3]),
    }
}

impl View for VerifyingKey {
    type V = KeyCoords;

    closed spec fn view(&self) -> KeyCoords {
        KeyCoords {
            alpha: self.alpha_g1@,
            beta: self.beta_g2@,
            gamma: self.gamma_g2@,
            delta: self.delta_g2@,
            ic: self.ic@.map_values(|p: G1Point| p@),
        }
    }
}

impl VerifyingKey {
    #[verifier::type_invariant]
    spec fn well_formed(self) -> bool {
        &&& !self.alpha_g1.infinity
        &&& forall|i: int| 0 <= i < self.ic@.len() ==> !(#[trigger] self.ic@[i]).infinity
        &&& key_on_curve(self@)
    }

    /// The point `alpha` (G1).
    pub fn alpha_g1(&self) -> (r: G1Point)
        ensures
            r@ == self@.alpha,
            !r.infinity,
            g1_on_curve(r@),
    {
        proof { use_type_invariant(self); }
        self.alpha_g1
    }

    /// The point `beta` (G2).
    pub fn beta_g2(&self) -> (r: G2Point)
        ensures
            r@ == self@.beta,
            g2_on_curve(r@),
    {
        proof { use_type_invariant(self); }
        self.beta_g2
    }

    /// The point `gamma` (G2).
    pub fn gamma_g2(&self) -> (r: G2Point)
        ensures
            r@ == self@.gamma,
            g2_on_curve(r@),
    {
        proof { use_type_invariant(self); }
        self.gamma_g2
    }

    /// The point `delta` (G2).
    pub fn delta_g2(&self) -> (r: G2Point)
        ensures
            r@ == self@.delta,
            g2_on_curve(r@),
    {
        proof { use_type_invariant(self); }
        self.delta_g2
    }

    /// The number of `ic` points: one more than the number of public inputs.
    pub fn ic_len(&self) -> (r: usize)
        ensures
            r == self@.ic.len(),
    {
        self.ic.len()
    }

    /// The `ic` points.
    pub fn ic_points(&self) -> (r: &Vec<G1Point>)
        ensures
            r@.map_values(|p: G1Point| p@) == self@.ic,
            forall|i: int| 0 <= i < r@.len() ==> g1_on_curve(#[trigger] r@[i]@),
    {
        proof {
            use_type_invariant(self);
            assert forall|i: int| 0 <= i < self.ic@.len() implies g1_on_curve(#[trigger] self.ic@[i]@) by {
                assert(self@.ic[i] == self.ic@[i]@);
            }
        }
        &self.ic
    }

    /// The `i`-th `ic` point.
    pub fn ic_point(&self, i: usize) -> (r: G1Point)
        requires
            i < self@.ic.len(),
        ensures
            r@ == self@.ic[i as int],
            !r.infinity,
            g1_on_curve(r@),
    {
        proof { use_type_invariant(self); }
        self.ic[i]
    }

    /// Builds a key from its coordinate words, each reduced modulo the
    /// base-field characteristic; fails with `PointNotOnCurve` when a point
    /// does not satisfy its curve equation.
    pub fn from_words(
        alpha: &[[u8; 32]; 2],
        beta: &[[u8; 32]; 4],
        gamma: &[[u8; 32]; 4],
        delta: &[[u8; 32]; 4],
        ic: &Vec<[[u8; 32]; 2]>,
    ) -> (r: Result<VerifyingKey, VerifyError>)
        ensures
            ({
                let k = key_of_words(*alpha, *beta, *gamma, *delta, ic@);
                match r {
                    Ok(key) => key_on_curve(k) && key@ == k,
                    Err(e) => !key_on_curve(k) && e == VerifyError::PointNotOnCurve,
                }
            }),
    {
        let ghost k = key_of_words(*alpha, *beta, *gamma, *delta, ic@);
        let alpha_g1 = g1_from_words(alpha);
        let beta_g2 = g2_from_words(beta);
        let gamma_g2 = g2_from_words(gamma);
        let delta_g2 = g2_from_words(delta);
        if !g1_is_on_curve(&alpha_g1) || !g2_is_on_curve(&beta_g2) || !g2_is_on_curve(&gamma_g2)
            || !g2_is_on_curve(&delta_g2) {
            return Err(VerifyError::PointNotOnCurve);
        }
        let mut points: Vec<G1Point> = Vec::new();
        let mut i: usize = 0;
        while i < ic.len()
            invariant
                i <= ic@.len(),
                points@.len() == i,
                forall|j: int| 0 <= j < i ==> (#[trigger] points@[j])@ == k.ic[j],
                forall|j: int| 0 <= j < i ==> !(#[trigger] points@[j]).infinity,
                forall|j: int| 0 <= j < i ==> g1_on_curve(#[trigger] k.ic[j]),
                k == key_of_words(*alpha, *beta, *gamma, *delta, ic@),
            decreases ic@.len() - i,
        {
            let p = g1_from_words(&ic[i]);
            if !g1_is_on_curve(&p) {
                assert(!g1_on_curve(k.ic[i as int]));
                return Err(VerifyError::PointNotOnCurve);
            }
            points.push(p);
            i = i + 1;
        }
        let key = VerifyingKey { alpha_g1, beta_g2, gamma_g2, delta_g2, ic: points };
        assert(key@.ic =~= k.ic);
        Ok(key)
    }

    /// Loads the key deployed with this verifier from its fixed coordinate
    /// words. A deployed point that is not on its curve makes the load fail
    /// with `PointNotOnCurve`, so that no proof can be accepted against it.
    pub fn load_real() -> (r: Result<VerifyingKey, VerifyError>)
        ensures
            key_result(r) == deployed_key_result(),
    {
        let ic: Vec<[[u8; 32]; 2]> = vec![[IC_0_X, IC_0_Y], [IC_1_X, IC_1_Y]];
        proof {
            assert(ic@ =~= seq![[IC_0_X, IC_0_Y], [IC_1_X, IC_1_Y]]);
        }
        VerifyingKey::from_words(
            &[ALPHA_G1_X, ALPHA_G1_Y],
            &[BETA_G2_X0, BETA_G2_X1, BETA_G2_Y0, BETA_G2_Y1],
            &[GAMMA_G2_X0, GAMMA_G2_X1, GAMMA_G2_Y0, GAMMA_G2_Y1],
            &[DELTA_G2_X0, DELTA_G2_X1, DELTA_G2_Y0, DELTA_G2_Y1],
            &ic,
        )
    }
}

} // verus!
