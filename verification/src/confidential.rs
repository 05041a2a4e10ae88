//! One party's commit, prove, verify lifecycle over one secret value.

use crate::engine::pedersen_commitment;
use crate::engine::prove_range;
use crate::engine::supported_width;
use crate::engine::verify_range;
use crate::engine::BoundProof;
use crate::engine::Commitment;
use crate::engine::GeneratorParams;
use crate::engine::MAX_BIT_WIDTH;
use crate::error::RangeProofError;
use crate::range::fits_in_bits;
use crate::scalar::BlindingFactor;
use crate::utils::generate_random_bindings;
use vstd::prelude::*;

verus! {

/// A secret value, its commitment and, once made, the proof that the value
/// lies in a range.
///
/// A transaction starts out committed, with no proof.  `generate_proof`
/// moves it to proven; `verify_proof` only asks and changes nothing.
pub struct ConfidentialTransactions {
    params: GeneratorParams,
    secret_value: u64,
    blinding: BlindingFactor,
    /// The public commitment to the secret value.
    pub commitment: Commitment,
    proof: Option<BoundProof>,
}

impl ConfidentialTransactions {
    /// The generator parameters that the transaction was set up with.
    pub closed spec fn params(&self) -> GeneratorParams {
        self.params
    }

    /// The value that the commitment hides.
    pub closed spec fn secret_value(&self) -> u64 {
        self.secret_value
    }

    /// The blinding factor that masks the value.
    pub closed spec fn blinding(&self) -> BlindingFactor {
        self.blinding
    }

    /// The public commitment to the secret value.
    pub closed spec fn public_commitment(&self) -> Commitment {
        self.commitment
    }

    /// The proof, if one was made.
    pub closed spec fn stored_proof(&self) -> Option<BoundProof> {
        self.proof
    }

    /// The commitment is the commitment to the secret value under the
    /// transaction's own blinding factor.
    pub open spec fn wf(&self) -> bool {
        self.public_commitment()@ == pedersen_commitment(self.secret_value(), self.blinding()@)
    }

    /// The transaction holds a proof made for `bit_width` bits.
    pub open spec fn proven_with(&self, bit_width: usize) -> bool {
        self.stored_proof() matches Some(proof) && proof.width() == bit_width
    }

    /// The transaction holds a proof made for its own commitment and for
    /// `bit_width` bits.
    pub open spec fn bound_with(&self, bit_width: usize) -> bool {
        self.stored_proof() matches Some(proof) && proof.binds(self.public_commitment(), bit_width)
    }

    /// `after` is this transaction with `proof` stored and nothing else
    /// changed.
    pub open spec fn with_proof(&self, proof: BoundProof, after: &ConfidentialTransactions) -> bool {
        &&& after.params() == self.params()
        &&& after.secret_value() == self.secret_value()
        &&& after.blinding() == self.blinding()
        &&& after.public_commitment() == self.public_commitment()
        &&& after.stored_proof() == Some(proof)
    }

    /// What a check of this transaction against `bit_width` may report.
    ///
    /// It accepts only a stored proof that was made for the transaction's
    /// commitment and for `bit_width`, a width that the engine supports and
    /// the generators cover; every refusal is a `VerificationError`.
    pub open spec fn may_report(&self, bit_width: usize, outcome: Result<(), RangeProofError>) -> bool {
        &&& outcome is Ok ==> self.bound_with(bit_width) && supported_width(bit_width) && bit_width
            <= self.params().capacity()
        &&& outcome matches Err(e) ==> e is VerificationError
    }

    /// A committed transaction over `value`, masked by the given blinding
    /// factor, with generators for proofs of up to `proof_bits` bits.
    pub fn with_blinding(value: u64, proof_bits: usize, blinding: BlindingFactor) -> (tx:
        ConfidentialTransactions)
        ensures
            tx.wf(),
            tx.secret_value() == value,
            tx.blinding() == blinding,
            tx.stored_proof() is None,
            tx.params().capacity() == if proof_bits <= MAX_BIT_WIDTH {
                proof_bits
            } else {
                MAX_BIT_WIDTH
            },
    {
        let params = GeneratorParams::new(proof_bits);
        let commitment = params.commit(value, &blinding);
        ConfidentialTransactions { params, secret_value: value, blinding, commitment, proof: None }
    }

    /// A committed transaction over `value` under a freshly drawn blinding
    /// factor.  No proof is made yet.
    ///
    /// The one failure is that of the random source.
    pub fn new(value: u64, proof_bits: usize) -> (made: Result<
        ConfidentialTransactions,
        RangeProofError,
    >)
        ensures
            match made {
                Ok(tx) => {
                    &&& tx.wf()
                    &&& tx.blinding().wf()
                    &&& tx.secret_value() == value
                    &&& tx.stored_proof() is None
                    &&& tx.params().capacity() == if proof_bits <= MAX_BIT_WIDTH {
                        proof_bits
                    } else {
                        MAX_BIT_WIDTH
                    }
                },
                Err(e) => e is RandomnessUnavailable,
            },
    {
        match generate_random_bindings() {
            Ok(blinding) => Ok(Self::with_blinding(value, proof_bits, blinding)),
            Err(e) => Err(e),
        }
    }

    /// Stores the proof that came of a proving attempt, or hands its failure
    /// on and leaves the transaction as it was.
    pub fn record_proof(&mut self, attempt: Result<BoundProof, RangeProofError>) -> (outcome: Result<
        &BoundProof,
        RangeProofError,
    >)
        ensures
            match attempt {
                Ok(proof) => outcome == Ok::<&BoundProof, RangeProofError>(&proof) && old(
                    self,
                ).with_proof(proof, final(self)),
                Err(e) => outcome == Err::<&BoundProof, RangeProofError>(e) && *final(self) == *old(
                    self,
                ),
            },
    {
        match attempt {
            Ok(proof) => {
                self.proof = Some(proof);
                Ok(self.proof.as_ref().unwrap())
            },
            Err(e) => Err(e),
        }
    }

    /// Proves that the secret value lies in `[0, 2^proof_bits)` and stores
    /// the proof.
    ///
    /// A value that does not fit is a `RangeViolation`.  For a value that
    /// fits the engine decides: its proof is stored, bound to `proof_bits`
    /// and to the commitment to the secret value, and handed back; its
    /// refusal is an `EngineFailure`.  On any failure
    /// the transaction stays as it was.
    pub fn generate_proof(&mut self, proof_bits: usize) -> (outcome: Result<
        &BoundProof,
        RangeProofError,
    >)
        ensures
            !fits_in_bits(old(self).secret_value(), proof_bits) ==> outcome == Err::<
                &BoundProof,
                RangeProofError,
            >(RangeProofError::RangeViolation),
            match outcome {
                Ok(proof) => {
                    &&& fits_in_bits(old(self).secret_value(), proof_bits)
                    &&& supported_width(proof_bits)
                    &&& proof_bits <= old(self).params().capacity()
                    &&& proof.width() == proof_bits
                    &&& proof.bound_commitment()@ == pedersen_commitment(
                        old(self).secret_value(),
                        old(self).blinding()@,
                    )
                    &&& old(self).with_proof(*proof, final(self))
                    &&& final(self).proven_with(proof_bits)
                    &&& old(self).wf() ==> final(self).bound_with(proof_bits)
                },
                Err(e) => {
                    &&& *final(self) == *old(self)
                    &&& (e is RangeViolation || e is EngineFailure)
                    &&& e is RangeViolation ==> !fits_in_bits(old(self).secret_value(), proof_bits)
                },
            },
    {
        let attempt = prove_range(&self.params, self.secret_value, &self.blinding, proof_bits);
        proof {
            if attempt is Ok && self.wf() {
                Commitment::lemma_view_decides(
                    attempt.unwrap().bound_commitment(),
                    self.commitment,
                );
            }
        }
        self.record_proof(attempt)
    }

    /// Checks the stored proof against the commitment and `proof_bits`.
    ///
    /// With no proof stored, and against a commitment or a width other than
    /// those the proof was made for, the check fails with
    /// `VerificationError`.
    /// Otherwise the engine decides.  The transaction is not changed, and
    /// the check can be repeated.
    pub fn verify_proof(&self, proof_bits: usize) -> (outcome: Result<(), RangeProofError>)
        ensures
            self.may_report(proof_bits, outcome),
            self.stored_proof() is None ==> outcome == Err::<(), RangeProofError>(
                RangeProofError::VerificationError,
            ),
            !self.bound_with(proof_bits) ==> outcome == Err::<(), RangeProofError>(
                RangeProofError::VerificationError,
            ),
    {
        match &self.proof {
            Some(proof) => verify_range(&self.params, proof, &self.commitment, proof_bits),
            None => Err(RangeProofError::VerificationError),
        }
    }

    /// The public commitment to the secret value.
    pub fn commitment(&self) -> (commitment: &Commitment)
        ensures
            *commitment == self.public_commitment(),
    {
        &self.commitment
    }

    /// The secret blinding factor.
    ///
    /// This is here for demonstration and diagnosis only: whoever learns the
    /// blinding factor can test guesses of the value against the commitment.
    pub fn get_blinding(&self) -> (blinding: &BlindingFactor)
        ensures
            *blinding == self.blinding(),
    {
        &self.blinding
    }

    /// The stored proof, if one was made.
    pub fn get_proof(&self) -> (stored: Option<&BoundProof>)
        ensures
            match stored {
                Some(bound) => self.stored_proof() == Some(*bound),
                None => self.stored_proof() is None,
            },
    {
        self.proof.as_ref()
    }
}

/// Commitments are deterministic: two transactions over the same value and
/// the same blinding factor carry the same commitment, whatever generator
/// parameters each was set up with.
pub proof fn law_same_value_and_blinding_same_commitment(
    a: ConfidentialTransactions,
    b: ConfidentialTransactions,
)
    requires
        a.wf(),
        b.wf(),
        a.secret_value() == b.secret_value(),
        a.blinding() == b.blinding(),
    ensures
        a.public_commitment() == b.public_commitment(),
{
    Commitment::lemma_view_decides(a.public_commitment(), b.public_commitment());
}

/// A transaction that holds no proof never verifies: whatever a check
/// reports for it, at any bit width, is a `VerificationError`.
pub proof fn law_no_proof_no_verification(
    tx: ConfidentialTransactions,
    bit_width: usize,
    outcome: Result<(), RangeProofError>,
)
    requires
        tx.stored_proof() is None,
        tx.may_report(bit_width, outcome),
    ensures
        outcome == Err::<(), RangeProofError>(RangeProofError::VerificationError),
{
}

/// A proof made for one bit width fails every check against another: if
/// storing a proof made for `made_bits` took `before` to `after`, then
/// whatever a check of `after` against a different width reports is a
/// `VerificationError`.
pub proof fn law_other_width_never_verifies(
    before: ConfidentialTransactions,
    after: ConfidentialTransactions,
    proof: BoundProof,
    made_bits: usize,
    asked_bits: usize,
    outcome: Result<(), RangeProofError>,
)
    requires
        proof.width() == made_bits,
        before.with_proof(proof, &after),
        asked_bits != made_bits,
        after.may_report(asked_bits, outcome),
    ensures
        outcome == Err::<(), RangeProofError>(RangeProofError::VerificationError),
{
}

/// A proof made for one commitment fails every check against another: where
/// the stored proof was not made for the commitment that the transaction
/// shows, whatever a check reports, at any bit width, is a
/// `VerificationError`.
pub proof fn law_other_commitment_never_verifies(
    tx: ConfidentialTransactions,
    proof: BoundProof,
    bit_width: usize,
    outcome: Result<(), RangeProofError>,
)
    requires
        tx.stored_proof() == Some(proof),
        proof.bound_commitment() != tx.public_commitment(),
        tx.may_report(bit_width, outcome),
    ensures
        outcome == Err::<(), RangeProofError>(RangeProofError::VerificationError),
{
}

/// Once a proof for the transaction's own commitment and for `bit_width`
/// bits is stored, and the engine supports that width over the transaction's
/// generators, nothing that this crate checks stands in the way of
/// verification at that width: acceptance is one of the outcomes that a
/// check may report, and whether it comes is for the engine to decide.
pub proof fn law_stored_proof_may_verify(tx: ConfidentialTransactions, bit_width: usize)
    requires
        tx.bound_with(bit_width),
        supported_width(bit_width),
        bit_width <= tx.params().capacity(),
    ensures
        tx.may_report(bit_width, Ok(())),
{
}

/// Storing a proof changes neither the secret value, nor the blinding
/// factor, nor the commitment: a well-formed transaction stays well formed.
pub proof fn law_proving_keeps_the_commitment(
    before: ConfidentialTransactions,
    after: ConfidentialTransactions,
    proof: BoundProof,
)
    requires
        before.wf(),
        before.with_proof(proof, &after),
    ensures
        after.wf(),
        after.public_commitment() == before.public_commitment(),
{
}

} // verus!
