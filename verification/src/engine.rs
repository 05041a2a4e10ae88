//! The commitment and range-proof engine, as this crate sees it.
//!
//! Commitments and blinding factors are held as the 32 bytes that spell
//! them.  Curve arithmetic and the proof construction are the work of
//! `bulletproofs`, `curve25519_dalek` and `merlin`; the functions here hand
//! them plain values, decide what this crate can decide itself, and turn
//! their answers into this crate's own types.

use crate::error::RangeProofError;
use crate::range::fits_in_bits;
use crate::range::value_fits;
use crate::scalar::BlindingFactor;
use crate::text::fingerprint;
use crate::text::fingerprint_string;
use vstd::prelude::*;

verus! {

/// A finished range proof of the engine, carried through unread.
#[verifier::external_type_specification]
#[verifier::external_body]
pub struct ExEngineProof(bulletproofs::RangeProof);

/// The widest range that the engine can prove, in bits.
pub const MAX_BIT_WIDTH: usize = 64;

/// The domain separator under which every proof of this crate is made and
/// checked.
pub const TRANSCRIPT_LABEL: &'static str = "RangeProofExample";

/// The bit widths for which the engine builds proofs.
pub open spec fn supported_width(bit_width: usize) -> bool {
    bit_width == 8 || bit_width == 16 || bit_width == 32 || bit_width == 64
}

/// The bytes of the Pedersen commitment to `value` under `blinding`, over
/// the engine's default pair of base points.
///
/// This names what `bulletproofs::PedersenGens::commit` computes; the curve
/// arithmetic behind it is not spelled out here.
pub uninterp spec fn pedersen_commitment(value: u64, blinding: Seq<u8>) -> Seq<u8>;

/// A public commitment to a secret value: a compressed curve point.
#[derive(Clone, Copy, Debug, PartialEq, Eq)]
pub struct Commitment {
    bytes: [u8; 32],
}

impl View for Commitment {
    type V = Seq<u8>;

    closed spec fn view(&self) -> Seq<u8> {
        self.bytes@
    }
}

impl Commitment {
    /// The commitment that the 32 bytes spell.
    pub fn from_bytes(bytes: [u8; 32]) -> (commitment: Commitment)
        ensures
            commitment@ == bytes@,
    {
        Commitment { bytes }
    }

    /// Two commitments that spell the same bytes are the same commitment.
    pub proof fn lemma_view_decides(a: Commitment, b: Commitment)
        requires
            a@ == b@,
        ensures
            a == b,
    {
        assert(a.bytes@ =~= b.bytes@);
        assert(a.bytes == b.bytes);
    }

    /// The 32 bytes of the compressed point.
    pub fn to_bytes(&self) -> (bytes: [u8; 32])
        ensures
            bytes@ == self@,
    {
        self.bytes
    }
}

/// The fixed public bases over which commitments and proofs are made.
///
/// The Pedersen pair is always the engine's default, so all that tells one
/// set from another is how many proof generators it holds.  Two parties
/// whose commitments are to be comparable share one set.
#[derive(Clone, Copy, Debug, PartialEq, Eq)]
pub struct GeneratorParams {
    gens_capacity: usize,
}

impl GeneratorParams {
    #[verifier::type_invariant]
    spec fn bounded(self) -> bool {
        self.gens_capacity <= MAX_BIT_WIDTH
    }

    /// The number of bits up to which these parameters can carry a proof.
    pub closed spec fn capacity(&self) -> usize {
        self.gens_capacity
    }

    /// Parameters for proofs of up to `proof_bits` bits.
    ///
    /// No proof is wider than 64 bits, so no more than 64 generators are
    /// ever kept.
    pub fn new(proof_bits: usize) -> (params: GeneratorParams)
        ensures
            params.capacity() == if proof_bits <= MAX_BIT_WIDTH {
                proof_bits
            } else {
                MAX_BIT_WIDTH
            },
    {
        if proof_bits <= MAX_BIT_WIDTH {
            GeneratorParams { gens_capacity: proof_bits }
        } else {
            GeneratorParams { gens_capacity: MAX_BIT_WIDTH }
        }
    }

    /// The number of bits up to which these parameters can carry a proof.
    pub fn gens_capacity(&self) -> (capacity: usize)
        ensures
            capacity == self.capacity(),
            capacity <= MAX_BIT_WIDTH,
    {
        proof {
            use_type_invariant(self);
        }
        self.gens_capacity
    }

    /// Commits to `value` under `blinding`, over the Pedersen pair of these
    /// parameters.
    ///
    /// The commitment is a function of the two: the same pair always gives
    /// the same commitment, however many proof generators the parameters
    /// hold.
    pub fn commit(&self, value: u64, blinding: &BlindingFactor) -> (commitment: Commitment)
        ensures
            commitment@ == pedersen_commitment(value, blinding@),
    {
        let bytes = blinding.to_bytes();
        Commitment::from_bytes(pedersen_commit(value, &bytes))
    }
}

/// A range proof, bound to the commitment and the bit width it was made
/// for.
///
/// The proof itself is the engine's and is never read here.  Commitment and
/// width are fixed when the proof is made; a check against any other
/// commitment or width fails.
#[derive(Debug)]
pub struct BoundProof {
    proof: bulletproofs::RangeProof,
    commitment: Commitment,
    bit_width: usize,
}

impl BoundProof {
    /// The width, in bits, of the range that the proof was made for.
    pub closed spec fn width(&self) -> usize {
        self.bit_width
    }

    /// The commitment that the proof was made for.
    pub closed spec fn bound_commitment(&self) -> Commitment {
        self.commitment
    }

    /// The engine's proof.
    pub closed spec fn engine_proof(&self) -> bulletproofs::RangeProof {
        self.proof
    }

    /// The proof was made for `commitment` and `bit_width`.
    pub open spec fn binds(&self, commitment: Commitment, bit_width: usize) -> bool {
        self.bound_commitment() == commitment && self.width() == bit_width
    }

    /// The width, in bits, of the range that the proof was made for.
    pub fn bit_width(&self) -> (bit_width: usize)
        ensures
            bit_width == self.width(),
    {
        self.bit_width
    }

    /// The commitment that the proof was made for.
    pub fn commitment(&self) -> (commitment: &Commitment)
        ensures
            *commitment == self.bound_commitment(),
    {
        &self.commitment
    }

    /// The engine's proof.
    pub fn as_engine_proof(&self) -> (proof: &bulletproofs::RangeProof)
        ensures
            *proof == self.engine_proof(),
    {
        &self.proof
    }
}

/// Calls `bulletproofs::PedersenGens::commit` on the base points of
/// `PedersenGens::default`, with the value as a scalar and the blinding
/// bytes read by `Scalar::from_bytes_mod_order`, and hands back the bytes of
/// the compressed point.
///
/// Trusted: the result depends on the value and the blinding bytes alone.
/// The engine draws no randomness here.
#[verifier::external_body]
fn pedersen_commit(value: u64, blinding: &[u8; 32]) -> (point: [u8; 32])
    ensures
        point@ == pedersen_commitment(value, blinding@),
{
    let gens = bulletproofs::PedersenGens::default();
    let blinding = curve25519_dalek::Scalar::from_bytes_mod_order(*blinding);
    gens.commit(curve25519_dalek::Scalar::from(value), blinding).compress().to_bytes()
}

/// Calls `bulletproofs::RangeProof::prove_single` and hands back the proof
/// with the bytes of the commitment that the engine made it for.
///
/// The generators come from `BulletproofGens::new(gens_capacity, 1)` and
/// `PedersenGens::default`, the transcript from `merlin::Transcript::new`
/// on the label, the blinding scalar from `Scalar::from_bytes_mod_order`.
/// The generators are built at once and in full, so their number is bounded.
///
/// Trusted: the engine builds a proof only for a width of 8, 16, 32 or 64
/// bits that the generators cover, and the commitment that it hands back is
/// the Pedersen commitment to the value under the blinding.  It does not
/// look at whether the value fits the width.  The proof itself is
/// randomised, and nothing is claimed of it.
#[verifier::external_body]
fn engine_prove(
    gens_capacity: usize,
    label: &'static str,
    value: u64,
    blinding: &[u8; 32],
    bit_width: usize,
) -> (outcome: Result<(bulletproofs::RangeProof, [u8; 32]), bulletproofs::ProofError>)
    requires
        gens_capacity <= MAX_BIT_WIDTH,
    ensures
        outcome matches Ok(made) ==> {
            &&& supported_width(bit_width)
            &&& bit_width <= gens_capacity
            &&& made.1@ == pedersen_commitment(value, blinding@)
        },
{
    let bp_gens = bulletproofs::BulletproofGens::new(gens_capacity, 1);
    let pc_gens = bulletproofs::PedersenGens::default();
    let mut transcript = merlin::Transcript::new(label.as_bytes());
    let blinding = curve25519_dalek::Scalar::from_bytes_mod_order(*blinding);
    bulletproofs::RangeProof::prove_single(
        &bp_gens,
        &pc_gens,
        &mut transcript,
        value,
        &blinding,
        bit_width,
    ).map(|made| (made.0, made.1.to_bytes()))
}

/// Calls `bulletproofs::RangeProof::verify_single`.
///
/// The generators come from `BulletproofGens::new(gens_capacity, 1)` and
/// `PedersenGens::default`, the transcript from `merlin::Transcript::new`
/// on the label; the commitment bytes are taken as a compressed point.
///
/// Trusted: the engine accepts only for a width of 8, 16, 32 or 64 bits that
/// the generators cover.  Beyond that nothing is claimed: the engine weighs
/// its equations with a random factor, so its answer is not a function of
/// what it is given.
#[verifier::external_body]
fn engine_verify(
    gens_capacity: usize,
    label: &'static str,
    proof: &bulletproofs::RangeProof,
    commitment: &[u8; 32],
    bit_width: usize,
) -> (outcome: Result<(), bulletproofs::ProofError>)
    requires
        gens_capacity <= MAX_BIT_WIDTH,
    ensures
        outcome is Ok ==> supported_width(bit_width) && bit_width <= gens_capacity,
{
    let bp_gens = bulletproofs::BulletproofGens::new(gens_capacity, 1);
    let pc_gens = bulletproofs::PedersenGens::default();
    let mut transcript = merlin::Transcript::new(label.as_bytes());
    let commitment = curve25519_dalek::ristretto::CompressedRistretto(*commitment);
    proof.verify_single(&bp_gens, &pc_gens, &mut transcript, &commitment, bit_width)
}

/// A commitment's fingerprint, for showing it to a reader.
pub fn display_commitment(commitment: &Commitment) -> (text: String)
    ensures
        text@ == fingerprint(commitment@),
{
    let bytes = commitment.to_bytes();
    fingerprint_string(&bytes)
}

/// Whether two runs of 32 bytes are the same.
pub fn same_bytes(a: &[u8; 32], b: &[u8; 32]) -> (same: bool)
    ensures
        same == (a@ == b@),
{
    let mut i: usize = 0;
    while i < 32
        invariant
            i <= 32,
            forall|j: int| 0 <= j < i ==> a@[j] == b@[j],
        decreases 32 - i,
    {
        if a[i] != b[i] {
            return false;
        }
        i += 1;
    }
    assert(a@ =~= b@);
    true
}

/// Binds what the engine made to the commitment it made it for and to the
/// width it was asked for, or reports the engine's failure.
pub fn seal_proof(
    made: Result<(bulletproofs::RangeProof, [u8; 32]), bulletproofs::ProofError>,
    bit_width: usize,
) -> (outcome: Result<BoundProof, RangeProofError>)
    ensures
        match made {
            Ok(pair) => {
                &&& outcome matches Ok(bound)
                &&& bound.engine_proof() == pair.0
                &&& bound.bound_commitment()@ == pair.1@
                &&& bound.width() == bit_width
            },
            Err(e) => outcome == Err::<BoundProof, RangeProofError>(
                RangeProofError::EngineFailure(e),
            ),
        },
{
    match made {
        Ok(pair) => Ok(
            BoundProof { proof: pair.0, commitment: Commitment::from_bytes(pair.1), bit_width },
        ),
        Err(e) => Err(RangeProofError::EngineFailure(e)),
    }
}

/// Proves that `value` lies in `[0, 2^bit_width)`.
///
/// A value outside the range is refused here, before the engine is asked:
/// the engine would prove a statement about its low bits only.  For a value
/// inside the range the engine decides; a proof that comes back is bound to
/// `bit_width` and to the commitment to `value` under `blinding`.
pub fn prove_range(
    params: &GeneratorParams,
    value: u64,
    blinding: &BlindingFactor,
    bit_width: usize,
) -> (outcome: Result<BoundProof, RangeProofError>)
    ensures
        !fits_in_bits(value, bit_width) ==> outcome == Err::<BoundProof, RangeProofError>(
            RangeProofError::RangeViolation,
        ),
        fits_in_bits(value, bit_width) ==> match outcome {
            Ok(bound) => {
                &&& bound.width() == bit_width
                &&& bound.bound_commitment()@ == pedersen_commitment(value, blinding@)
                &&& supported_width(bit_width)
                &&& bit_width <= params.capacity()
            },
            Err(e) => e is EngineFailure,
        },
{
    if !value_fits(value, bit_width) {
        return Err(RangeProofError::RangeViolation);
    }
    let bytes = blinding.to_bytes();
    let made = engine_prove(params.gens_capacity(), TRANSCRIPT_LABEL, value, &bytes, bit_width);
    seal_proof(made, bit_width)
}

/// What a check reports for the engine's answer: acceptance as it is, and
/// every refusal as a verification failure.
pub fn verdict(answer: Result<(), bulletproofs::ProofError>) -> (outcome: Result<
    (),
    RangeProofError,
>)
    ensures
        outcome == if answer is Ok {
            Ok::<(), RangeProofError>(())
        } else {
            Err::<(), RangeProofError>(RangeProofError::VerificationError)
        },
{
    match answer {
        Ok(_) => Ok(()),
        Err(_) => Err(RangeProofError::VerificationError),
    }
}

/// Checks `proof` against `commitment` and `bit_width`.
///
/// A proof is bound to the commitment and the width it was made for:
/// against any other commitment or width the check fails without the engine
/// being asked.  Otherwise the engine decides.  The one failure is
/// `VerificationError`.
pub fn verify_range(
    params: &GeneratorParams,
    proof: &BoundProof,
    commitment: &Commitment,
    bit_width: usize,
) -> (outcome: Result<(), RangeProofError>)
    ensures
        outcome == Ok::<(), RangeProofError>(()) || outcome == Err::<(), RangeProofError>(
            RangeProofError::VerificationError,
        ),
        !proof.binds(*commitment, bit_width) ==> outcome is Err,
        outcome is Ok ==> supported_width(bit_width) && bit_width <= params.capacity(),
{
    let bytes = commitment.to_bytes();
    let bound = proof.commitment().to_bytes();
    if proof.bit_width() != bit_width || !same_bytes(&bound, &bytes) {
        return Err(RangeProofError::VerificationError);
    }
    proof {
        Commitment::lemma_view_decides(proof.bound_commitment(), *commitment);
    }
    let answer = engine_verify(
        params.gens_capacity(),
        TRANSCRIPT_LABEL,
        proof.as_engine_proof(),
        &bound,
        bit_width,
    );
    verdict(answer)
}

} // verus!
