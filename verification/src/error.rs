//! Why a commitment, a proof or a verification did not come about.

use vstd::prelude::*;
use vstd::string::StringExecFns;

verus! {

/// The proof engine's own error, carried through unread.
#[verifier::external_type_specification]
#[verifier::external_body]
pub struct ExEngineError(bulletproofs::ProofError);

/// The random source's own error, carried through unread.
#[verifier::external_type_specification]
#[verifier::external_body]
pub struct ExEntropyError(getrandom::Error);

/// A failure of committing, proving or verifying.
///
/// Every variant is an ordinary outcome that the caller can act on; none of
/// them ends the process.
#[derive(Debug, PartialEq, Eq)]
pub enum RangeProofError {
    /// The secret value does not lie in `[0, 2^bit_width)`.
    RangeViolation,
    /// There is no proof to check, or the proof does not hold for the
    /// commitment and bit width it was checked against.
    VerificationError,
    /// The system's random source gave no bytes for a blinding factor.
    RandomnessUnavailable(getrandom::Error),
    /// The proof engine refused to build a proof.
    EngineFailure(bulletproofs::ProofError),
}

/// Writes the engine's error in its `Debug` form, with std's `format!`.
///
/// Trusted, and nothing is claimed of the text.
#[verifier::external_body]
fn engine_error_text(failure: &bulletproofs::ProofError) -> (text: String) {
    format!("{:?}", failure)
}

/// Writes the random source's error in its `Debug` form, with std's
/// `format!`.
///
/// Trusted, and nothing is claimed of the text.
#[verifier::external_body]
fn entropy_error_text(failure: &getrandom::Error) -> (text: String) {
    format!("{:?}", failure)
}

impl RangeProofError {
    /// The failure in a word.
    ///
    /// The two failures that this crate finds itself are written by their
    /// names.  A failure of the engine is written as the engine writes it;
    /// one of the random source as the source writes it, inside
    /// `RandomnessUnavailable(..)`.
    pub fn describe(&self) -> (text: String)
        ensures
            match *self {
                RangeProofError::RangeViolation => text@ == "RangeViolation"@,
                RangeProofError::VerificationError => text@ == "VerificationError"@,
                RangeProofError::RandomnessUnavailable(_) => {
                    &&& "RandomnessUnavailable("@.is_prefix_of(text@)
                    &&& ")"@.is_suffix_of(text@)
                },
                RangeProofError::EngineFailure(_) => true,
            },
    {
        match self {
            RangeProofError::RangeViolation => String::from_str("RangeViolation"),
            RangeProofError::VerificationError => String::from_str("VerificationError"),
            RangeProofError::RandomnessUnavailable(failure) => {
                let mut text = String::from_str("RandomnessUnavailable(");
                text.append(entropy_error_text(failure).as_str());
                text.append(")");
                text
            },
            RangeProofError::EngineFailure(failure) => engine_error_text(failure),
        }
    }
}

} // verus!
