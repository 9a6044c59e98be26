use vstd::prelude::*;
use ark_ff::{BigInteger, PrimeField};

verus! {

/// The characteristic `p` of the BN254 base field.
pub open spec fn base_modulus() -> nat {
    21888242871839275222246405745257275088696311157297823662689037894645226208583nat
}

/// The characteristic `r` of the BN254 scalar field (the order of G1 and G2).
pub open spec fn scalar_modulus() -> nat {
    21888242871839275222246405745257275088548364400416034343698204186575808495617nat
}

/// The unsigned big-endian integer that a byte string encodes.
pub open spec fn be_value(s: Seq<u8>) -> nat
    decreases s.len(),
{
    if s.len() == 0 {
        0
    } else {
        be_value(s.drop_last()) * 256 + s.last() as nat
    }
}

/// The `n`-byte big-endian encoding of `v` modulo `256^n`.
pub open spec fn be_bytes(v: nat, n: nat) -> Seq<u8>
    decreases n,
{
    if n == 0 {
        Seq::empty()
    } else {
        be_bytes(v / 256, (n - 1) as nat).push((v % 256) as u8)
    }
}

/// Encoding a byte string's value back to its own length gives the string.
pub proof fn lemma_be_bytes_of_value(s: Seq<u8>)
    ensures
        be_bytes(be_value(s), s.len()) == s,
    decreases s.len(),
{
    if s.len() > 0 {
        let init = s.drop_last();
        lemma_be_bytes_of_value(init);
        vstd::arithmetic::div_mod::lemma_fundamental_div_mod_converse(
            be_value(s) as int,
            256,
            be_value(init) as int,
            s.last() as int,
        );
        assert(s =~= init.push(s.last()));
    }
}

/// Reduces a big-endian integer modulo the base-field characteristic and
/// returns the canonical 32-byte big-endian encoding of the residue.
///
/// Relies on `ark_ff::PrimeField::from_be_bytes_mod_order` for `ark_bn254::Fq`,
/// which reads the bytes as a big-endian integer and reduces it modulo `p`.
#[verifier::external_body]
pub(crate) fn reduce_base(b: &[u8]) -> (r: [u8; 32])
    ensures
        be_value(r@) == be_value(b@) % base_modulus(),
{
    ark_bn254::Fq::from_be_bytes_mod_order(b).into_bigint().to_bytes_be().try_into().unwrap()
}

/// Reduces a big-endian integer modulo the scalar-field characteristic and
/// returns the canonical 32-byte big-endian encoding of the residue.
///
/// Relies on `ark_ff::PrimeField::from_be_bytes_mod_order` for `ark_bn254::Fr`,
/// which reads the bytes as a big-endian integer and reduces it modulo `r`.
#[verifier::external_body]
pub(crate) fn reduce_scalar(b: &[u8]) -> (r: [u8; 32])
    ensures
        be_value(r@) == be_value(b@) % scalar_modulus(),
{
    ark_bn254::Fr::from_be_bytes_mod_order(b).into_bigint().to_bytes_be().try_into().unwrap()
}

} // verus!
