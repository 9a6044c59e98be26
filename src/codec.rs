use vstd::prelude::*;
use crate::curve::{g1_is_on_curve, g1_on_curve, g2_is_on_curve, g2_on_curve, G1Coords, G1Point, G2Coords, G2Point};
use crate::error::VerifyError;
use crate::field::{base_modulus, be_value, reduce_base};

verus! {

/// Length of the uncompressed proof encoding.
pub const PROOF_LEN: usize = 256;

/// The base-field element read from the 32-byte word at `off`.
pub open spec fn word_value(bytes: Seq<u8>, off: int) -> nat {
    be_value(bytes.subrange(off, off + 32)) % base_modulus()
}

/// The G1 point whose coordinates are the words at `off` and `off + 32`.
pub open spec fn g1_at(bytes: Seq<u8>, off: int) -> G1Coords {
    G1Coords { x: word_value(bytes, off), y: word_value(bytes, off + 32), infinity: false }
}

/// The G2 point whose coordinates are the four words from `off` on, laid out
/// as `x0 || x1 || y0 || y1`.
pub open spec fn g2_at(bytes: Seq<u8>, off: int) -> G2Coords {
    G2Coords {
        x0: word_value(bytes, off),
        x1: word_value(bytes, off + 32),
        y0: word_value(bytes, off + 64),
        y1: word_value(bytes, off + 96),
    }
}

/// The three points that a 256-byte encoding `A.x || A.y || B.x0 || B.x1 ||
/// B.y0 || B.y1 || C.x || C.y` spells, before any curve check: point `A`.
pub open spec fn proof_a(bytes: Seq<u8>) -> G1Coords {
    g1_at(bytes, 0)
}

/// Point `B` of a proof encoding.
pub open spec fn proof_b(bytes: Seq<u8>) -> G2Coords {
    g2_at(bytes, 64)
}

/// Point `C` of a proof encoding.
pub open spec fn proof_c(bytes: Seq<u8>) -> G1Coords {
    g1_at(bytes, 192)
}

/// Whether all three points of a 256-byte encoding satisfy their curve equations.
pub open spec fn proof_points_on_curve(bytes: Seq<u8>) -> bool {
    g1_on_curve(proof_a(bytes)) && g2_on_curve(proof_b(bytes)) && g1_on_curve(proof_c(bytes))
}

/// What decoding a proof encoding gives: the length is checked first, then the
/// curve equations.
pub open spec fn decode_proof_result(bytes: Seq<u8>) -> Result<(G1Coords, G2Coords, G1Coords), VerifyError> {
    if bytes.len() != 256 {
        Err(VerifyError::InvalidLength)
    } else if !proof_points_on_curve(bytes) {
        Err(VerifyError::PointNotOnCurve)
    } else {
        Ok((proof_a(bytes), proof_b(bytes), proof_c(bytes)))
    }
}

/// A string of zero bytes encodes zero.
proof fn lemma_zeros_value(n: nat)
    ensures
        be_value(Seq::new(n, |i: int| 0u8)) == 0,
    decreases n,
{
    if n > 0 {
        lemma_zeros_value((n - 1) as nat);
        assert(Seq::new(n, |i: int| 0u8).drop_last() =~= Seq::new((n - 1) as nat, |i: int| 0u8));
    }
}

/// The all-zero 256-byte string is refused with `PointNotOnCurve`: its point
/// `A = (0, 0)` is an affine point that does not satisfy `y^2 = x^3 + 3`.
pub proof fn lemma_all_zero_proof_refused()
    ensures
        decode_proof_result(Seq::new(256, |i: int| 0u8)) == Err::<(G1Coords, G2Coords, G1Coords), VerifyError>(
            VerifyError::PointNotOnCurve,
        ),
{
    let zeros = Seq::new(256, |i: int| 0u8);
    assert(zeros.subrange(0, 32) =~= Seq::new(32, |i: int| 0u8));
    assert(zeros.subrange(32, 64) =~= Seq::new(32, |i: int| 0u8));
    lemma_zeros_value(32);
    let a = proof_a(zeros);
    assert(a.x == 0 && a.y == 0);
    assert((0nat * 0nat) % base_modulus() == 0);
    assert((0nat * 0nat * 0nat + 3) % base_modulus() == 3);
    assert(!g1_on_curve(a));
}

/// A Groth16 proof `(A, B, C)`: two affine G1 points and one G2 point, each on
/// its curve.
#[derive(Clone, Copy, Debug)]
pub struct Groth16Proof {
    a: G1Point,
    b: G2Point,
    c: G1Point,
}

/// Reads the base-field element in the 32 bytes of `bytes` from `off` on.
fn read_word(bytes: &[u8], off: usize) -> (r: [u8; 32])
    requires
        bytes@.len() == 256,
        off <= 224,
    ensures
        be_value(r@) == word_value(bytes@, off as int),
{
    reduce_base(vstd::slice::slice_subrange(bytes, off, off + 32))
}

impl View for Groth16Proof {
    type V = (G1Coords, G2Coords, G1Coords);

    /// The coordinates of `(A, B, C)`.
    closed spec fn view(&self) -> (G1Coords, G2Coords, G1Coords) {
        (self.a@, self.b@, self.c@)
    }
}

impl Groth16Proof {
    #[verifier::type_invariant]
    spec fn well_formed(self) -> bool {
        &&& !self.a.infinity
        &&& !self.c.infinity
        &&& g1_on_curve(self.a@)
        &&& g2_on_curve(self.b@)
        &&& g1_on_curve(self.c@)
    }

    /// Point `A` (G1).
    pub fn a(&self) -> (r: G1Point)
        ensures
            r@ == self@.0,
            !r.infinity,
            g1_on_curve(r@),
    {
        proof { use_type_invariant(self); }
        self.a
    }

    /// Point `B` (G2).
    pub fn b(&self) -> (r: G2Point)
        ensures
            r@ == self@.1,
            g2_on_curve(r@),
    {
        proof { use_type_invariant(self); }
        self.b
    }

    /// Point `C` (G1).
    pub fn c(&self) -> (r: G1Point)
        ensures
            r@ == self@.2,
            !r.infinity,
            g1_on_curve(r@),
    {
        proof { use_type_invariant(self); }
        self.c
    }

    /// Decodes the uncompressed 256-byte proof encoding
    /// `A.x || A.y || B.x0 || B.x1 || B.y0 || B.y1 || C.x || C.y`, each word
    /// big-endian and reduced modulo the base-field characteristic.
    pub fn from_uncompressed_bytes(bytes: &[u8]) -> (r: Result<Groth16Proof, VerifyError>)
        ensures
            r matches Ok(p) ==> decode_proof_result(bytes@) == Ok::<_, VerifyError>(p@),
            r matches Err(e) ==> decode_proof_result(bytes@) == Err::<(G1Coords, G2Coords, G1Coords), _>(e),
    {
        if bytes.len() != PROOF_LEN {
            return Err(VerifyError::InvalidLength);
        }
        let a = G1Point { x: read_word(bytes, 0), y: read_word(bytes, 32), infinity: false };
        let b = G2Point {
            x0: read_word(bytes, 64),
            x1: read_word(bytes, 96),
            y0: read_word(bytes, 128),
            y1: read_word(bytes, 160),
        };
        let c = G1Point { x: read_word(bytes, 192), y: read_word(bytes, 224), infinity: false };
        if !g1_is_on_curve(&a) || !g2_is_on_curve(&b) || !g1_is_on_curve(&c) {
            return Err(VerifyError::PointNotOnCurve);
        }
        Ok(Groth16Proof { a, b, c })
    }
}

} // verus!
