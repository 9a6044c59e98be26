use vstd::prelude::*;
use crate::codec::{decode_proof_result, Groth16Proof};
use crate::curve::{G1Coords, G2Coords};
use crate::error::VerifyError;
use crate::field::{be_value, reduce_scalar, scalar_modulus};
use crate::key::{deployed_key_result, KeyCoords, VerifyingKey};
use crate::pairing::{
    assemble_terms, commit_public_inputs, commitment, encode_pairing_input, encode_terms,
    groth16_terms, pairing_answer_verdict, pairing_check, pairing_product_is_one,
    read_pairing_answer, scalars_of, PairingTerm,
};

verus! {

/// The scalars that raw public inputs spell, or `InvalidPublicInputSize` when
/// one of them is not 32 bytes long.
pub open spec fn parse_inputs_result(raw: Seq<Seq<u8>>) -> Result<Seq<nat>, VerifyError> {
    if exists|i: int| 0 <= i < raw.len() && (#[trigger] raw[i]).len() != 32 {
        Err(VerifyError::InvalidPublicInputSize)
    } else {
        Ok(raw.map_values(|b: Seq<u8>| be_value(b) % scalar_modulus()))
    }
}

/// The pairing terms of a proof against a key, for public inputs that match
/// the key's arity.
pub open spec fn proof_terms(
    proof: (G1Coords, G2Coords, G1Coords),
    inputs: Seq<nat>,
    key: KeyCoords,
) -> Seq<PairingTerm> {
    groth16_terms(
        proof.0,
        proof.1,
        proof.2,
        key.alpha,
        key.beta,
        key.gamma,
        key.delta,
        commitment(key.ic, inputs),
    )
}

/// The Groth16 verdict on a decoded proof and decoded inputs: the arity check
/// comes first, then the pairing check.
pub open spec fn groth16_result(
    proof: (G1Coords, G2Coords, G1Coords),
    inputs: Seq<nat>,
    key: KeyCoords,
) -> Result<bool, VerifyError> {
    if inputs.len() + 1 != key.ic.len() {
        Err(VerifyError::InvalidPublicInputCount)
    } else {
        Ok(pairing_product_is_one(proof_terms(proof, inputs, key)))
    }
}

/// The input for the host pairing-check primitive on a decoded proof and
/// decoded inputs, after the same arity check.
pub open spec fn delegated_request(
    proof: (G1Coords, G2Coords, G1Coords),
    inputs: Seq<nat>,
    key: KeyCoords,
) -> Result<Seq<u8>, VerifyError> {
    if inputs.len() + 1 != key.ic.len() {
        Err(VerifyError::InvalidPublicInputCount)
    } else {
        Ok(encode_terms(proof_terms(proof, inputs, key)))
    }
}

/// The verdict on raw proof bytes and raw public inputs against a key (or the
/// error of loading it): proof decoding, then input decoding, then the key,
/// then the Groth16 check.
pub open spec fn verification_result(
    proof_bytes: Seq<u8>,
    raw_inputs: Seq<Seq<u8>>,
    key: Result<KeyCoords, VerifyError>,
) -> Result<bool, VerifyError> {
    match decode_proof_result(proof_bytes) {
        Err(e) => Err(e),
        Ok(proof) => match parse_inputs_result(raw_inputs) {
            Err(e) => Err(e),
            Ok(inputs) => match key {
                Err(e) => Err(e),
                Ok(k) => groth16_result(proof, inputs, k),
            },
        },
    }
}

/// The request for the host pairing-check primitive on raw proof bytes and raw
/// public inputs, with the errors in the same order as `verification_result`.
pub open spec fn delegated_request_result(
    proof_bytes: Seq<u8>,
    raw_inputs: Seq<Seq<u8>>,
    key: Result<KeyCoords, VerifyError>,
) -> Result<Seq<u8>, VerifyError> {
    match decode_proof_result(proof_bytes) {
        Err(e) => Err(e),
        Ok(proof) => match parse_inputs_result(raw_inputs) {
            Err(e) => Err(e),
            Ok(inputs) => match key {
                Err(e) => Err(e),
                Ok(k) => delegated_request(proof, inputs, k),
            },
        },
    }
}

/// The state of the verification service.
pub struct VerifierState {
    pub owner: Seq<u8>,
    pub verified_count: nat,
    pub initialized: bool,
}

/// The state after a verification call with result `r`: the counter grows by
/// one when the call returned `Ok(true)` and is otherwise unchanged.
pub open spec fn after_verification(s: VerifierState, r: Result<bool, VerifyError>) -> VerifierState {
    if r == Ok::<bool, VerifyError>(true) {
        VerifierState { verified_count: s.verified_count + 1, ..s }
    } else {
        s
    }
}

/// The state and result of `initialize(owner)`: legal once, from the
/// uninitialized state; a second call fails and changes nothing.
pub open spec fn initialize_step(s: VerifierState, owner: Seq<u8>) -> (VerifierState, Result<(), VerifyError>) {
    if s.initialized {
        (s, Err(VerifyError::AlreadyInitialized))
    } else {
        (VerifierState { owner, verified_count: 0, initialized: true }, Ok(()))
    }
}

/// Public inputs whose count plus one differs from the number of `ic` points
/// are refused with `InvalidPublicInputCount` once the proof and the inputs
/// decode, before any group operation, and the verification counter stays as
/// it was.
pub proof fn lemma_arity_mismatch_refused(
    proof_bytes: Seq<u8>,
    raw_inputs: Seq<Seq<u8>>,
    key: KeyCoords,
    s: VerifierState,
)
    requires
        decode_proof_result(proof_bytes) is Ok,
        parse_inputs_result(raw_inputs) is Ok,
        raw_inputs.len() + 1 != key.ic.len(),
    ensures
        verification_result(proof_bytes, raw_inputs, Ok(key)) == Err::<bool, VerifyError>(
            VerifyError::InvalidPublicInputCount,
        ),
        after_verification(s, verification_result(proof_bytes, raw_inputs, Ok(key))) == s,
{
}

/// The 32-byte answer of a host pairing-check primitive that evaluates the
/// product of pairings correctly: last byte 1 when the check holds, else 0.
pub open spec fn pairing_answer_word(holds: bool) -> Seq<u8> {
    Seq::new(32, |i: int| if i == 31 && holds { 1u8 } else { 0u8 })
}

/// The two pairing backends agree. On the same decoded proof, inputs and key,
/// both apply the same arity check; the delegated backend sends the encoding
/// of exactly the pairing terms that the in-process backend evaluates; and when
/// the host primitive answers that product of pairings correctly, reading its
/// answer gives the in-process verdict.
pub proof fn lemma_backends_agree(
    proof: (G1Coords, G2Coords, G1Coords),
    inputs: Seq<nat>,
    key: KeyCoords,
    answer: Seq<u8>,
)
    requires
        answer == pairing_answer_word(pairing_product_is_one(proof_terms(proof, inputs, key))),
    ensures
        match delegated_request(proof, inputs, key) {
            Err(e) => groth16_result(proof, inputs, key) == Err::<bool, VerifyError>(e),
            Ok(request) => {
                &&& request == encode_terms(proof_terms(proof, inputs, key))
                &&& pairing_answer_verdict(Some(answer)) == groth16_result(proof, inputs, key)
            },
        },
{
}

/// The verification counter grows by exactly one after a call that returned
/// `Ok(true)`, and is unchanged after one that returned `Ok(false)` or an
/// error; the owner and the initialization flag never change.
pub proof fn lemma_counter_step(s: VerifierState, r: Result<bool, VerifyError>)
    ensures
        after_verification(s, r).verified_count == s.verified_count + if r == Ok::<bool, VerifyError>(true) {
            1int
        } else {
            0int
        },
        after_verification(s, r).owner == s.owner,
        after_verification(s, r).initialized == s.initialized,
{
}

/// A second `initialize` fails with `AlreadyInitialized` and leaves the owner
/// and the counter as the first one set them.
pub proof fn lemma_second_initialize_refused(s: VerifierState, first: Seq<u8>, second: Seq<u8>)
    requires
        !s.initialized,
    ensures
        ({
            let (s1, r1) = initialize_step(s, first);
            let (s2, r2) = initialize_step(s1, second);
            &&& r1 == Ok::<(), VerifyError>(())
            &&& r2 == Err::<(), VerifyError>(VerifyError::AlreadyInitialized)
            &&& s2 == s1
            &&& s2.owner == first
            &&& s2.verified_count == 0
        }),
{
}

/// The Groth16 verification service: the owner, a one-time initialization
/// flag, and the number of proofs verified so far.
#[derive(Debug)]
pub struct ZKVerifier {
    owner: [u8; 20],
    verified_count: u64,
    initialized: bool,
}

impl View for ZKVerifier {
    type V = VerifierState;

    closed spec fn view(&self) -> VerifierState {
        VerifierState {
            owner: self.owner@,
            verified_count: self.verified_count as nat,
            initialized: self.initialized,
        }
    }
}

impl ZKVerifier {
    /// The state of a freshly deployed service: uninitialized, no owner, and
    /// no verified proof.
    pub fn new() -> (r: ZKVerifier)
        ensures
            r@ == (VerifierState {
                owner: Seq::new(20, |i: int| 0u8),
                verified_count: 0,
                initialized: false,
            }),
    {
        let r = ZKVerifier { owner: [0u8; 20], verified_count: 0, initialized: false };
        assert(r@.owner =~= Seq::new(20, |i: int| 0u8));
        r
    }

    /// A service in a state read back from storage.
    pub fn from_state(owner: [u8; 20], verified_count: u64, initialized: bool) -> (r: ZKVerifier)
        ensures
            r@ == (VerifierState { owner: owner@, verified_count: verified_count as nat, initialized }),
    {
        ZKVerifier { owner, verified_count, initialized }
    }

    /// Sets the owner and zeroes the counter, once.
    pub fn initialize(&mut self, owner: [u8; 20]) -> (r: Result<(), VerifyError>)
        ensures
            (final(self)@, r) == initialize_step(old(self)@, owner@),
    {
        if self.initialized {
            return Err(VerifyError::AlreadyInitialized);
        }
        self.owner = owner;
        self.verified_count = 0;
        self.initialized = true;
        Ok(())
    }

    /// The number of proofs verified so far.
    pub fn get_verified_count(&self) -> (r: u64)
        ensures
            r == self@.verified_count,
    {
        self.verified_count
    }

    /// The owner set by `initialize`.
    pub fn get_owner(&self) -> (r: [u8; 20])
        ensures
            r@ == self@.owner,
    {
        self.owner
    }

    /// Whether `initialize` has succeeded.
    pub fn is_initialized(&self) -> (r: bool)
        ensures
            r == self@.initialized,
    {
        self.initialized
    }

    /// Decodes public inputs: each must be 32 bytes long and is reduced modulo
    /// the scalar-field characteristic; the order is kept.
    pub fn parse_public_inputs(inputs: &Vec<Vec<u8>>) -> (r: Result<Vec<[u8; 32]>, VerifyError>)
        ensures
            match r {
                Ok(v) => parse_inputs_result(inputs.deep_view()) == Ok::<Seq<nat>, VerifyError>(scalars_of(v@)),
                Err(e) => parse_inputs_result(inputs.deep_view()) == Err::<Seq<nat>, VerifyError>(e),
            },
    {
        let ghost raw = inputs.deep_view();
        let mut result: Vec<[u8; 32]> = Vec::new();
        let mut i: usize = 0;
        while i < inputs.len()
            invariant
                i <= inputs@.len(),
                raw == inputs.deep_view(),
                result@.len() == i,
                forall|j: int| 0 <= j < i ==> (#[trigger] raw[j]).len() == 32,
                forall|j: int|
                    0 <= j < i ==> be_value((#[trigger] result@[j])@) % scalar_modulus() == be_value(raw[j])
                        % scalar_modulus(),
            decreases inputs@.len() - i,
        {
            if inputs[i].len() != 32 {
                assert(raw[i as int].len() != 32);
                return Err(VerifyError::InvalidPublicInputSize);
            }
            let w = reduce_scalar(inputs[i].as_slice());
            proof {
                assert(raw[i as int] == inputs@[i as int]@);
                vstd::arithmetic::div_mod::lemma_mod_twice(be_value(raw[i as int]) as int, scalar_modulus() as int);
            }
            result.push(w);
            i = i + 1;
        }
        assert(scalars_of(result@) =~= raw.map_values(|b: Seq<u8>| be_value(b) % scalar_modulus()));
        Ok(result)
    }

    /// Checks a decoded proof against a key: fails with
    /// `InvalidPublicInputCount` unless there is one input fewer than `ic`
    /// points, else forms `L = ic[0] + sum_i ic[i + 1] * inputs[i]` and tells
    /// whether `e(A, B) * e(-alpha, beta) * e(-L, gamma) * e(-C, delta)` is the
    /// multiplicative identity of the target group.
    pub fn verify_groth16(proof: &Groth16Proof, public_inputs: &Vec<[u8; 32]>, vk: &VerifyingKey) -> (r: Result<bool, VerifyError>)
        ensures
            r == groth16_result(proof@, scalars_of(public_inputs@), vk@),
    {
        let terms = match Self::pairing_terms(proof, public_inputs, vk) {
            Ok(t) => t,
            Err(e) => return Err(e),
        };
        Ok(pairing_check(&terms))
    }

    /// The arity check, then the four pairing terms of the Groth16 check.
    fn pairing_terms(proof: &Groth16Proof, public_inputs: &Vec<[u8; 32]>, vk: &VerifyingKey) -> (r: Result<Vec<(crate::curve::G1Point, crate::curve::G2Point)>, VerifyError>)
        ensures
            match r {
                Ok(terms) => {
                    &&& public_inputs@.len() + 1 == vk@.ic.len()
                    &&& crate::pairing::terms_view(terms@) == proof_terms(proof@, scalars_of(public_inputs@), vk@)
                    &&& crate::pairing::terms_on_curve(crate::pairing::terms_view(terms@))
                },
                Err(e) => public_inputs@.len() + 1 != vk@.ic.len() && e == VerifyError::InvalidPublicInputCount,
            },
    {
        let n: usize = vk.ic_len();
        if n == 0 || public_inputs.len() != n - 1 {
            return Err(VerifyError::InvalidPublicInputCount);
        }
        let l = commit_public_inputs(vk.ic_points(), public_inputs);
        let terms = assemble_terms(
            &proof.a(),
            &proof.b(),
            &proof.c(),
            &vk.alpha_g1(),
            &vk.beta_g2(),
            &vk.gamma_g2(),
            &vk.delta_g2(),
            &l,
        );
        Ok(terms)
    }

    /// The input for the host pairing-check primitive on a decoded proof: the
    /// same arity check as `verify_groth16`, then the same four pairing terms,
    /// each written as `x || y` for G1 and `x0 || x1 || y0 || y1` for G2.
    pub fn bn256_pairing_input(proof: &Groth16Proof, public_inputs: &Vec<[u8; 32]>, vk: &VerifyingKey) -> (r: Result<Vec<u8>, VerifyError>)
        ensures
            match r {
                Ok(bytes) => delegated_request(proof@, scalars_of(public_inputs@), vk@) == Ok::<Seq<u8>, VerifyError>(bytes@),
                Err(e) => delegated_request(proof@, scalars_of(public_inputs@), vk@) == Err::<Seq<u8>, VerifyError>(e),
            },
    {
        let terms = match Self::pairing_terms(proof, public_inputs, vk) {
            Ok(t) => t,
            Err(e) => return Err(e),
        };
        Ok(encode_pairing_input(&terms))
    }
    /// Counts a verification that returned `Ok(true)`.
    fn record(&mut self, r: &Result<bool, VerifyError>)
        requires
            old(self)@.verified_count < u64::MAX,
        ensures
            final(self)@ == after_verification(old(self)@, *r),
    {
        if let Ok(true) = r {
            self.verified_count = self.verified_count + 1;
        }
    }

    /// Decodes the proof, then the public inputs, then checks them against
    /// `vk` with the in-process pairing computation; the counter grows by one
    /// exactly when the result is `Ok(true)`.
    pub fn verify_with_key(&mut self, vk: &VerifyingKey, proof_bytes: Vec<u8>, public_inputs: Vec<Vec<u8>>) -> (r: Result<bool, VerifyError>)
        requires
            old(self)@.verified_count < u64::MAX,
        ensures
            r == verification_result(proof_bytes@, public_inputs.deep_view(), Ok(vk@)),
            final(self)@ == after_verification(old(self)@, r),
    {
        let r = Self::check(vk, &proof_bytes, &public_inputs);
        self.record(&r);
        r
    }

    fn check(vk: &VerifyingKey, proof_bytes: &Vec<u8>, public_inputs: &Vec<Vec<u8>>) -> (r: Result<bool, VerifyError>)
        ensures
            r == verification_result(proof_bytes@, public_inputs.deep_view(), Ok(vk@)),
    {
        let proof = match Groth16Proof::from_uncompressed_bytes(proof_bytes.as_slice()) {
            Ok(p) => p,
            Err(e) => return Err(e),
        };
        let inputs = match Self::parse_public_inputs(public_inputs) {
            Ok(v) => v,
            Err(e) => return Err(e),
        };
        Self::verify_groth16(&proof, &inputs, vk)
    }

    /// `verify_with_key` against the deployed key. When the deployed key does
    /// not load, every well-formed call fails with its error and nothing is
    /// counted.
    pub fn verify(&mut self, proof_bytes: Vec<u8>, public_inputs: Vec<Vec<u8>>) -> (r: Result<bool, VerifyError>)
        requires
            old(self)@.verified_count < u64::MAX,
        ensures
            r == verification_result(proof_bytes@, public_inputs.deep_view(), deployed_key_result()),
            final(self)@ == after_verification(old(self)@, r),
    {
        let proof = match Groth16Proof::from_uncompressed_bytes(proof_bytes.as_slice()) {
            Ok(p) => p,
            Err(e) => return Err(e),
        };
        let inputs = match Self::parse_public_inputs(&public_inputs) {
            Ok(v) => v,
            Err(e) => return Err(e),
        };
        let vk = match VerifyingKey::load_real() {
            Ok(k) => k,
            Err(e) => return Err(e),
        };
        let r = Self::verify_groth16(&proof, &inputs, &vk);
        self.record(&r);
        r
    }

    /// The input for the host pairing-check primitive: the proof, the public
    /// inputs and the arity are checked as by `verify_with_key`, then the four
    /// pairing terms are serialized.
    pub fn precompile_input_with_key(vk: &VerifyingKey, proof_bytes: Vec<u8>, public_inputs: Vec<Vec<u8>>) -> (r: Result<Vec<u8>, VerifyError>)
        ensures
            match r {
                Ok(bytes) => delegated_request_result(proof_bytes@, public_inputs.deep_view(), Ok(vk@)) == Ok::<Seq<u8>, VerifyError>(bytes@),
                Err(e) => delegated_request_result(proof_bytes@, public_inputs.deep_view(), Ok(vk@)) == Err::<Seq<u8>, VerifyError>(e),
            },
    {
        let proof = match Groth16Proof::from_uncompressed_bytes(proof_bytes.as_slice()) {
            Ok(p) => p,
            Err(e) => return Err(e),
        };
        let inputs = match Self::parse_public_inputs(&public_inputs) {
            Ok(v) => v,
            Err(e) => return Err(e),
        };
        Self::bn256_pairing_input(&proof, &inputs, vk)
    }

    /// `precompile_input_with_key` against the deployed key.
    pub fn precompile_input(proof_bytes: Vec<u8>, public_inputs: Vec<Vec<u8>>) -> (r: Result<Vec<u8>, VerifyError>)
        ensures
            match r {
                Ok(bytes) => delegated_request_result(proof_bytes@, public_inputs.deep_view(), deployed_key_result()) == Ok::<Seq<u8>, VerifyError>(bytes@),
                Err(e) => delegated_request_result(proof_bytes@, public_inputs.deep_view(), deployed_key_result()) == Err::<Seq<u8>, VerifyError>(e),
            },
    {
        let proof = match Groth16Proof::from_uncompressed_bytes(proof_bytes.as_slice()) {
            Ok(p) => p,
            Err(e) => return Err(e),
        };
        let inputs = match Self::parse_public_inputs(&public_inputs) {
            Ok(v) => v,
            Err(e) => return Err(e),
        };
        let vk = match VerifyingKey::load_real() {
            Ok(k) => k,
            Err(e) => return Err(e),
        };
        Self::bn256_pairing_input(&proof, &inputs, &vk)
    }

    /// Completes a delegated verification with the answer of the host
    /// pairing-check primitive to the input of `precompile_input`: `None` when
    /// the call failed. The counter grows by one exactly when the result is
    /// `Ok(true)`.
    pub fn verify_with_precompile(&mut self, answer: Option<Vec<u8>>) -> (r: Result<bool, VerifyError>)
        requires
            old(self)@.verified_count < u64::MAX,
        ensures
            r == pairing_answer_verdict(match answer {
                Some(w) => Some(w@),
                None => None,
            }),
            final(self)@ == after_verification(old(self)@, r),
    {
        let r = read_pairing_answer(&answer);
        self.record(&r);
        r
    }
}

} // verus!
