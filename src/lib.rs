//! Groth16 proof verification over the BN254 pairing-friendly curve.
//!
//! The library decodes the 256-byte proof wire format, the 32-byte public
//! inputs and the verifying key, forms the public-input commitment and checks
//! the pairing equation `e(A, B) = e(alpha, beta) * e(L, gamma) * e(C, delta)`,
//! either in process or by preparing the input of a host pairing primitive and
//! reading its answer. A small service records how many proofs were accepted.

pub mod codec;
pub mod curve;
pub mod error;
pub mod field;
pub mod key;
pub mod pairing;
pub mod service;

pub use codec::Groth16Proof;
pub use curve::{G1Point, G2Point};
pub use error::VerifyError;
pub use key::VerifyingKey;
pub use service::ZKVerifier;
