use vstd::prelude::*;

verus! {

/// Why a decode, a verification or a state change was refused.
#[derive(Clone, Copy, Debug, PartialEq, Eq, Structural)]
pub enum VerifyError {
    /// The proof is not exactly 256 bytes long.
    InvalidLength,
    /// A decoded proof or key point does not satisfy its curve equation.
    PointNotOnCurve,
    /// A public input is not exactly 32 bytes long.
    InvalidPublicInputSize,
    /// The number of public inputs plus one differs from the key's `ic` length.
    InvalidPublicInputCount,
    /// The verifier state was already initialized.
    AlreadyInitialized,
    /// The host pairing primitive gave no well-formed 32-byte answer.
    PrecompileCallFailed,
}

impl VerifyError {
    /// A human-readable description of the error.
    pub fn message(&self) -> &'static str {
        match self {
            VerifyError::InvalidLength => "expected 256 bytes for an uncompressed proof",
            VerifyError::PointNotOnCurve => "point not on curve",
            VerifyError::InvalidPublicInputSize => "public input must be 32 bytes",
            VerifyError::InvalidPublicInputCount => "invalid number of public inputs",
            VerifyError::AlreadyInitialized => "already initialized",
            VerifyError::PrecompileCallFailed => "precompile call failed",
        }
    }
}

} // verus!
