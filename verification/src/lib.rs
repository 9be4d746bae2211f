//! Verification and quotient-construction core of a PLONK-style SNARK over
//! BLS12-381.
//!
//! The crate covers the two tightly coupled halves of the argument: replaying
//! the Fiat-Shamir transcript and checking a proof against a verifier key,
//! and building the quotient polynomial that certifies every per-row gate and
//! copy-constraint identity on the prover side.  Field arithmetic, FFTs, the
//! transcript hash and the polynomial-commitment scheme are delegated to
//! outside crates behind trusted wrappers; everything layered on top of them
//! is verified.

pub mod commitment;
pub mod domain;
pub mod encoding;
pub mod field;
pub mod proof_system;
pub mod quotient;
pub mod transcript;
pub mod widget;

use vstd::prelude::*;

verus! {

/// Failures surfaced by the core.
#[derive(Clone, Copy, PartialEq, Eq, Structural, Debug)]
pub enum Error {
    /// The requested evaluation domain cannot be represented in the field's
    /// two-power subgroup.
    InvalidEvalDomainSize { log_size_of_group: u32, adicity: u32 },
    /// A batched opening check cleanly returned false: the statement is false
    /// or the proof malformed.
    ProofVerificationError,
    /// Two transcript challenges that must differ coincided, or a challenge
    /// hit the evaluation domain.  Signals a broken or adversarial
    /// transcript; fatal, never retried.
    DegenerateChallenge,
    /// The commitment scheme reported a fault distinct from a false check.
    /// An environment or setup problem; fatal, never retried.
    CommitmentSchemeFault,
    /// A proof encoding could not be parsed back into a valid proof.
    InvalidProofEncoding,
}

} // verus!
