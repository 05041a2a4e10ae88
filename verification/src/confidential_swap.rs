//! A confidential swap between two parties, with a proof that the exchange
//! rate stays close to the agreed one.

use crate::engine::pedersen_commitment;
use crate::engine::prove_range;
use crate::engine::supported_width;
use crate::engine::verify_range;
use crate::engine::BoundProof;
use crate::engine::Commitment;
use crate::engine::GeneratorParams;
use crate::engine::MAX_BIT_WIDTH;
use crate::error::RangeProofError;
use crate::range::fits_in_bits;
use crate::range::value_fits;
use crate::scalar::BlindingFactor;
use crate::text::decimal;
use crate::text::decimal_string;
use crate::utils::generate_random_bindings;
use vstd::prelude::*;
use vstd::string::StringExecFns;

verus! {

/// Why an exchange rate was not proved.
#[derive(Debug, PartialEq, Eq)]
pub enum SwapError {
    /// The actual rate is further from the expected rate than allowed.  The
    /// caller may try again on other terms.
    ExchangeRateExceedThreshold { actual_rate: u64, expected_rate: u64, max_allowed_diff: u64 },
    /// The commitment or the proof for the rate difference did not come
    /// about.
    ProofCreationError(RangeProofError),
    /// Alice's asset value is zero, so there is no rate to speak of.
    DivisionByZero,
}

/// What is said of a rate that is too far from the expected one.
pub open spec fn threshold_message(actual_rate: u64, expected_rate: u64, max_allowed_diff: u64) -> Seq<
    char,
> {
    "The exchange rate difference exceeds the maximum allowed difference. Actual rate: "@
        + decimal(actual_rate as nat) + ", Expected rate: "@ + decimal(expected_rate as nat)
        + ", Max allowed difference: "@ + decimal(max_allowed_diff as nat)
}

/// What is said of a commitment or a proof that did not come about, where
/// `failure` is the failure in a word.
pub open spec fn creation_message(failure: Seq<char>) -> Seq<char> {
    "Proof creation failed: "@ + failure
}

impl From<RangeProofError> for SwapError {
    fn from(failure: RangeProofError) -> (wrapped: SwapError) {
        SwapError::ProofCreationError(failure)
    }
}

impl vstd::std_specs::convert::FromSpecImpl<RangeProofError> for SwapError {
    open spec fn obeys_from_spec() -> bool {
        true
    }

    open spec fn from_spec(failure: RangeProofError) -> SwapError {
        SwapError::ProofCreationError(failure)
    }
}

impl SwapError {
    /// The error in words, with the values that led to it.
    ///
    /// A rejected rate is reported with the actual rate, the expected rate
    /// and the threshold, each in decimal.
    pub fn message(&self) -> (text: String)
        ensures
            match *self {
                SwapError::ExchangeRateExceedThreshold {
                    actual_rate,
                    expected_rate,
                    max_allowed_diff,
                } => text@ == threshold_message(actual_rate, expected_rate, max_allowed_diff),
                SwapError::ProofCreationError(RangeProofError::RangeViolation) => text@
                    == creation_message("RangeViolation"@),
                SwapError::ProofCreationError(RangeProofError::VerificationError) => text@
                    == creation_message("VerificationError"@),
                SwapError::ProofCreationError(RangeProofError::RandomnessUnavailable(_)) => {
                    &&& creation_message("RandomnessUnavailable("@).is_prefix_of(text@)
                    &&& ")"@.is_suffix_of(text@)
                },
                SwapError::ProofCreationError(RangeProofError::EngineFailure(_)) => creation_message(
                    Seq::empty(),
                ).is_prefix_of(text@),
                SwapError::DivisionByZero => text@
                    == "Division by zero: Alice's asset value is zero"@,
            },
    {
        match self {
            SwapError::ExchangeRateExceedThreshold {
                actual_rate,
                expected_rate,
                max_allowed_diff,
            } => {
                let mut text = String::from_str(
                    "The exchange rate difference exceeds the maximum allowed difference. Actual rate: ",
                );
                text.append(decimal_string(*actual_rate).as_str());
                text.append(", Expected rate: ");
                text.append(decimal_string(*expected_rate).as_str());
                text.append(", Max allowed difference: ");
                text.append(decimal_string(*max_allowed_diff).as_str());
                text
            },
            SwapError::ProofCreationError(failure) => {
                let mut text = String::from_str("Proof creation failed: ");
                text.append(failure.describe().as_str());
                text
            },
            SwapError::DivisionByZero => String::from_str(
                "Division by zero: Alice's asset value is zero",
            ),
        }
    }
}

/// A named party and its committed asset value.
#[derive(Debug)]
pub struct SwapParticipant {
    pub name: String,
    pub asset_value: u64,
    pub blinding_factor: BlindingFactor,
    pub commitment: Commitment,
}

/// Two parties and, once proved, the commitment to the difference between
/// their actual and their expected exchange rate, with its range proof.
///
/// A swap starts out with both parties committed and no rate proved.
pub struct ConfidentialSwap {
    params: GeneratorParams,
    pub alice: SwapParticipant,
    pub bob: SwapParticipant,
    pub exchange_rate_commitment: Option<Commitment>,
    pub exchange_rate_proof: Option<BoundProof>,
}

/// What a swap holds.
pub struct SwapState {
    pub params: GeneratorParams,
    pub alice: SwapParticipant,
    pub bob: SwapParticipant,
    pub exchange_rate_commitment: Option<Commitment>,
    pub exchange_rate_proof: Option<BoundProof>,
}

/// Units of Bob's asset per unit of Alice's, rounded down.
pub open spec fn exchange_rate(alice_asset: u64, bob_asset: u64) -> int
    recommends
        alice_asset > 0,
{
    bob_asset as int / alice_asset as int
}

/// How far the actual rate is from the expected one.
pub open spec fn rate_difference(actual_rate: int, expected_rate: int) -> int {
    if actual_rate >= expected_rate {
        actual_rate - expected_rate
    } else {
        expected_rate - actual_rate
    }
}

/// The rule that a rate must pass before anything is proved: the difference
/// between the actual and the expected rate, or why there is none to prove.
pub open spec fn rate_check(
    alice_asset: u64,
    bob_asset: u64,
    expected_rate: u64,
    max_allowed_diff: u64,
) -> Result<u64, SwapError> {
    let actual = exchange_rate(alice_asset, bob_asset);
    let diff = rate_difference(actual, expected_rate as int);
    if alice_asset == 0 {
        Err(SwapError::DivisionByZero)
    } else if diff > max_allowed_diff {
        Err(
            SwapError::ExchangeRateExceedThreshold {
                actual_rate: actual as u64,
                expected_rate,
                max_allowed_diff,
            },
        )
    } else {
        Ok(diff as u64)
    }
}

/// Decides `rate_check`.
pub fn check_rate(alice_asset: u64, bob_asset: u64, expected_rate: u64, max_allowed_diff: u64) -> (checked:
    Result<u64, SwapError>)
    ensures
        checked == rate_check(alice_asset, bob_asset, expected_rate, max_allowed_diff),
{
    if alice_asset == 0 {
        return Err(SwapError::DivisionByZero);
    }
    let actual_rate: u64 = bob_asset / alice_asset;
    let rate_diff: u64 = if actual_rate > expected_rate {
        actual_rate - expected_rate
    } else {
        expected_rate - actual_rate
    };
    if rate_diff > max_allowed_diff {
        Err(SwapError::ExchangeRateExceedThreshold { actual_rate, expected_rate, max_allowed_diff })
    } else {
        Ok(rate_diff)
    }
}

impl SwapParticipant {
    /// The commitment is the commitment to the asset value under the
    /// participant's own blinding factor.
    pub open spec fn wf(&self) -> bool {
        self.commitment@ == pedersen_commitment(self.asset_value, self.blinding_factor@)
    }

    /// A participant called `name` whose asset value is committed under the
    /// given blinding factor.
    pub fn with_blinding(
        name: &str,
        asset_value: u64,
        params: &GeneratorParams,
        blinding_factor: BlindingFactor,
    ) -> (participant: SwapParticipant)
        ensures
            participant.wf(),
            participant.name@ == name@,
            participant.asset_value == asset_value,
            participant.blinding_factor == blinding_factor,
    {
        let commitment = params.commit(asset_value, &blinding_factor);
        SwapParticipant { name: name.to_owned(), asset_value, blinding_factor, commitment }
    }

    /// A participant called `name` whose asset value is committed under a
    /// freshly drawn blinding factor, over the generator parameters that it
    /// shares with its counterpart.
    ///
    /// The one failure is that of the random source.
    pub fn new(name: &str, asset_value: u64, params: &GeneratorParams) -> (made: Result<
        SwapParticipant,
        RangeProofError,
    >)
        ensures
            match made {
                Ok(participant) => {
                    &&& participant.wf()
                    &&& participant.blinding_factor.wf()
                    &&& participant.name@ == name@
                    &&& participant.asset_value == asset_value
                },
                Err(e) => e is RandomnessUnavailable,
            },
    {
        match generate_random_bindings() {
            Ok(blinding_factor) => Ok(
                Self::with_blinding(name, asset_value, params, blinding_factor),
            ),
            Err(e) => Err(e),
        }
    }
}

impl View for ConfidentialSwap {
    type V = SwapState;

    closed spec fn view(&self) -> SwapState {
        SwapState {
            params: self.params,
            alice: self.alice,
            bob: self.bob,
            exchange_rate_commitment: self.exchange_rate_commitment,
            exchange_rate_proof: self.exchange_rate_proof,
        }
    }
}

impl SwapState {
    /// Both parties committed, no rate proved.
    pub open spec fn initialized(&self) -> bool {
        &&& self.alice.wf()
        &&& self.bob.wf()
        &&& self.exchange_rate_commitment is None
        &&& self.exchange_rate_proof is None
    }

    /// The swap holds a commitment to `rate_diff` and a proof made for that
    /// commitment and for `bit_width` bits.
    pub open spec fn rate_proven(&self, rate_diff: u64, bit_width: usize) -> bool {
        &&& self.exchange_rate_commitment matches Some(commitment)
        &&& exists|blinding: BlindingFactor| #[trigger]
            pedersen_commitment(rate_diff, blinding@) == commitment@
        &&& self.exchange_rate_proof matches Some(proof)
        &&& proof.binds(commitment, bit_width)
    }

    /// This state with the rate's commitment and proof stored, and nothing
    /// else changed.
    pub open spec fn with_rate(&self, commitment: Commitment, proof: BoundProof) -> SwapState {
        SwapState {
            params: self.params,
            alice: self.alice,
            bob: self.bob,
            exchange_rate_commitment: Some(commitment),
            exchange_rate_proof: Some(proof),
        }
    }

    /// What a check of the exchange rate against `bit_width` may report.
    ///
    /// It accepts only where a commitment and a proof are stored, the proof
    /// was made for that commitment and for `bit_width`, and the engine
    /// supports that width over the swap's generators; every refusal is a
    /// `VerificationError`.
    pub open spec fn may_report(&self, bit_width: usize, outcome: Result<(), RangeProofError>) -> bool {
        &&& outcome is Ok ==> {
            &&& self.exchange_rate_commitment matches Some(commitment)
            &&& self.exchange_rate_proof matches Some(proof)
            &&& proof.binds(commitment, bit_width)
            &&& supported_width(bit_width)
            &&& bit_width <= self.params.capacity()
        }
        &&& outcome matches Err(e) ==> e is VerificationError
    }
}

impl ConfidentialSwap {
    /// A swap between Alice and Bob whose asset values are committed under
    /// the given blinding factors, over one shared set of generator
    /// parameters for proofs of up to `proof_bits` bits.
    pub fn with_blindings(
        alice_asset: u64,
        bob_asset: u64,
        proof_bits: usize,
        alice_blinding: BlindingFactor,
        bob_blinding: BlindingFactor,
    ) -> (swap: ConfidentialSwap)
        ensures
            swap@.initialized(),
            swap@.alice.name@ == "Alice"@,
            swap@.alice.asset_value == alice_asset,
            swap@.alice.blinding_factor == alice_blinding,
            swap@.bob.name@ == "Bob"@,
            swap@.bob.asset_value == bob_asset,
            swap@.bob.blinding_factor == bob_blinding,
            swap@.params.capacity() == if proof_bits <= MAX_BIT_WIDTH {
                proof_bits
            } else {
                MAX_BIT_WIDTH
            },
    {
        let params = GeneratorParams::new(proof_bits);
        let alice = SwapParticipant::with_blinding("Alice", alice_asset, &params, alice_blinding);
        let bob = SwapParticipant::with_blinding("Bob", bob_asset, &params, bob_blinding);
        ConfidentialSwap {
            params,
            alice,
            bob,
            exchange_rate_commitment: None,
            exchange_rate_proof: None,
        }
    }

    /// A swap between Alice and Bob, each committed under a freshly drawn
    /// blinding factor of its own.  No rate is proved yet.
    ///
    /// The one failure is that of the random source.
    pub fn new(alice_asset: u64, bob_asset: u64, proof_bits: usize) -> (made: Result<
        ConfidentialSwap,
        RangeProofError,
    >)
        ensures
            match made {
                Ok(swap) => {
                    &&& swap@.initialized()
                    &&& swap@.alice.name@ == "Alice"@
                    &&& swap@.alice.asset_value == alice_asset
                    &&& swap@.bob.name@ == "Bob"@
                    &&& swap@.bob.asset_value == bob_asset
                    &&& swap@.params.capacity() == if proof_bits <= MAX_BIT_WIDTH {
                        proof_bits
                    } else {
                        MAX_BIT_WIDTH
                    }
                },
                Err(e) => e is RandomnessUnavailable,
            },
    {
        let alice_blinding = match generate_random_bindings() {
            Ok(blinding) => blinding,
            Err(e) => {
                return Err(e);
            },
        };
        let bob_blinding = match generate_random_bindings() {
            Ok(blinding) => blinding,
            Err(e) => {
                return Err(e);
            },
        };
        Ok(Self::with_blindings(alice_asset, bob_asset, proof_bits, alice_blinding, bob_blinding))
    }

    /// Applies the rate rule to the two asset values of this swap.
    pub fn check_exchange_rate(&self, expected_rate: u64, max_allowed_diff: u64) -> (checked: Result<
        u64,
        SwapError,
    >)
        ensures
            checked == rate_check(
                self@.alice.asset_value,
                self@.bob.asset_value,
                expected_rate,
                max_allowed_diff,
            ),
    {
        check_rate(self.alice.asset_value, self.bob.asset_value, expected_rate, max_allowed_diff)
    }

    /// Stores the commitment and the proof that came of a proving attempt,
    /// or hands its failure on and leaves the swap as it was.
    pub fn record_rate_proof(
        &mut self,
        commitment: Commitment,
        attempt: Result<BoundProof, RangeProofError>,
    ) -> (outcome: Result<&BoundProof, SwapError>)
        ensures
            match attempt {
                Ok(proof) => outcome == Ok::<&BoundProof, SwapError>(&proof) && final(self)@ == old(
                    self,
                )@.with_rate(commitment, proof),
                Err(e) => outcome == Err::<&BoundProof, SwapError>(SwapError::ProofCreationError(e))
                    && *final(self) == *old(self),
            },
    {
        match attempt {
            Ok(proof) => {
                self.exchange_rate_commitment = Some(commitment);
                self.exchange_rate_proof = Some(proof);
                Ok(self.exchange_rate_proof.as_ref().unwrap())
            },
            Err(e) => Err(SwapError::from(e)),
        }
    }

    /// Commits to `rate_diff` under `blinding_factor`, proves that it lies
    /// in `[0, 2^proof_bits)`, and stores commitment and proof.
    ///
    /// A difference that does not fit is a `RangeViolation`; for one that
    /// fits the engine decides.  Either failure comes wrapped as
    /// `ProofCreationError`, and after a failure the swap is as it was.
    pub fn prove_rate_difference(
        &mut self,
        rate_diff: u64,
        proof_bits: usize,
        blinding_factor: BlindingFactor,
    ) -> (outcome: Result<&BoundProof, SwapError>)
        ensures
            !fits_in_bits(rate_diff, proof_bits) ==> outcome == Err::<&BoundProof, SwapError>(
                SwapError::ProofCreationError(RangeProofError::RangeViolation),
            ),
            match outcome {
                Ok(proof) => {
                    &&& fits_in_bits(rate_diff, proof_bits)
                    &&& supported_width(proof_bits)
                    &&& proof_bits <= old(self)@.params.capacity()
                    &&& final(self)@.exchange_rate_commitment matches Some(commitment)
                    &&& commitment@ == pedersen_commitment(rate_diff, blinding_factor@)
                    &&& proof.binds(commitment, proof_bits)
                    &&& final(self)@ == old(self)@.with_rate(commitment, *proof)
                },
                Err(e) => {
                    &&& *final(self) == *old(self)
                    &&& e matches SwapError::ProofCreationError(inner)
                    &&& (inner is RangeViolation || inner is EngineFailure)
                    &&& inner is RangeViolation ==> !fits_in_bits(rate_diff, proof_bits)
                },
            },
    {
        let commitment = self.params.commit(rate_diff, &blinding_factor);
        let attempt = prove_range(&self.params, rate_diff, &blinding_factor, proof_bits);
        proof {
            if attempt is Ok {
                Commitment::lemma_view_decides(attempt.unwrap().bound_commitment(), commitment);
            }
        }
        self.record_rate_proof(commitment, attempt)
    }

    /// Proves that the actual exchange rate is within `max_allowed_diff` of
    /// `expected_rate`.
    ///
    /// The actual rate is Bob's asset value divided by Alice's, rounded
    /// down.  With Alice's asset value zero there is no rate, and with the
    /// difference over the threshold nothing is proved: both are reported as
    /// `rate_check` says.  Otherwise a fresh blinding factor is drawn, the
    /// difference is committed to and proved to lie in
    /// `[0, 2^proof_bits)`; what keeps that from happening comes wrapped as
    /// `ProofCreationError`.  After any failure the swap is as it was.  A
    /// proof made earlier is replaced by a new one.
    pub fn prove_exchange_rate(
        &mut self,
        expected_rate: u64,
        proof_bits: usize,
        max_allowed_diff: u64,
    ) -> (outcome: Result<&BoundProof, SwapError>)
        ensures
            match rate_check(
                old(self)@.alice.asset_value,
                old(self)@.bob.asset_value,
                expected_rate,
                max_allowed_diff,
            ) {
                Err(rejection) => outcome == Err::<&BoundProof, SwapError>(rejection) && *final(self)
                    == *old(self),
                Ok(rate_diff) => match outcome {
                    Ok(proof) => {
                        &&& fits_in_bits(rate_diff, proof_bits)
                        &&& supported_width(proof_bits)
                        &&& proof_bits <= old(self)@.params.capacity()
                        &&& final(self)@.rate_proven(rate_diff, proof_bits)
                        &&& final(self)@.exchange_rate_proof == Some(*proof)
                        &&& final(self)@.alice == old(self)@.alice
                        &&& final(self)@.bob == old(self)@.bob
                        &&& final(self)@.params == old(self)@.params
                    },
                    Err(e) => {
                        &&& *final(self) == *old(self)
                        &&& e matches SwapError::ProofCreationError(inner)
                        &&& !(inner is VerificationError)
                        &&& inner is RangeViolation <==> !fits_in_bits(rate_diff, proof_bits)
                    },
                },
            },
    {
        let rate_diff = match self.check_exchange_rate(expected_rate, max_allowed_diff) {
            Ok(rate_diff) => rate_diff,
            Err(rejection) => {
                return Err(rejection);
            },
        };
        if !value_fits(rate_diff, proof_bits) {
            return Err(SwapError::ProofCreationError(RangeProofError::RangeViolation));
        }
        let blinding_factor = match generate_random_bindings() {
            Ok(blinding_factor) => blinding_factor,
            Err(e) => {
                return Err(SwapError::ProofCreationError(e));
            },
        };
        self.prove_rate_difference(rate_diff, proof_bits, blinding_factor)
    }

    /// Alice and her committed asset value.
    pub fn alice(&self) -> (alice: &SwapParticipant)
        ensures
            *alice == self@.alice,
    {
        &self.alice
    }

    /// Bob and his committed asset value.
    pub fn bob(&self) -> (bob: &SwapParticipant)
        ensures
            *bob == self@.bob,
    {
        &self.bob
    }

    /// The commitment to the rate difference, once a rate was proved.
    pub fn exchange_rate_commitment(&self) -> (commitment: &Option<Commitment>)
        ensures
            *commitment == self@.exchange_rate_commitment,
    {
        &self.exchange_rate_commitment
    }

    /// The range proof for the rate difference, once a rate was proved.
    pub fn exchange_rate_proof(&self) -> (stored: &Option<BoundProof>)
        ensures
            *stored == self@.exchange_rate_proof,
    {
        &self.exchange_rate_proof
    }

    /// Checks the stored proof against the stored commitment and
    /// `proof_bits`.
    ///
    /// Unless both a commitment and a proof are stored, and where the proof
    /// was made for another commitment or another width, the check fails
    /// with `VerificationError`.  Otherwise the engine decides.  The swap is not
    /// changed, and the check can be repeated.
    pub fn verify_exchange_rate(&self, proof_bits: usize) -> (outcome: Result<(), RangeProofError>)
        ensures
            self@.may_report(proof_bits, outcome),
            self@.exchange_rate_commitment is None || self@.exchange_rate_proof is None ==> outcome
                == Err::<(), RangeProofError>(RangeProofError::VerificationError),
    {
        match (&self.exchange_rate_commitment, &self.exchange_rate_proof) {
            (Some(commitment), Some(proof)) => verify_range(
                &self.params,
                proof,
                commitment,
                proof_bits,
            ),
            _ => Err(RangeProofError::VerificationError),
        }
    }
}

/// The rate rule accepts exactly when Alice's asset value is not zero and
/// the rounded-down rate of Bob's asset per unit of Alice's is within
/// `max_allowed_diff` of the expected rate; what it hands back is then the
/// distance between the two.
pub proof fn law_rate_rule(
    alice_asset: u64,
    bob_asset: u64,
    expected_rate: u64,
    max_allowed_diff: u64,
)
    ensures
        match rate_check(alice_asset, bob_asset, expected_rate, max_allowed_diff) {
            Ok(rate_diff) => {
                &&& alice_asset > 0
                &&& rate_diff <= max_allowed_diff
                &&& rate_diff == rate_difference(
                    exchange_rate(alice_asset, bob_asset),
                    expected_rate as int,
                )
            },
            Err(SwapError::DivisionByZero) => alice_asset == 0,
            Err(SwapError::ExchangeRateExceedThreshold { actual_rate, expected_rate: e, max_allowed_diff: m }) => {
                &&& alice_asset > 0
                &&& actual_rate == exchange_rate(alice_asset, bob_asset)
                &&& e == expected_rate
                &&& m == max_allowed_diff
                &&& rate_difference(actual_rate as int, expected_rate as int) > max_allowed_diff
            },
            Err(SwapError::ProofCreationError(_)) => false,
        },
{
    if alice_asset > 0 {
        let actual = exchange_rate(alice_asset, bob_asset);
        assert(0 <= actual <= bob_asset) by (nonlinear_arith)
            requires
                alice_asset > 0,
                actual == bob_asset as int / alice_asset as int,
        ;
    }
}

/// A swap for which no rate was proved never verifies: whatever a check
/// reports for a swap without a stored commitment or without a stored proof
/// is a `VerificationError`.  A rejected rate leaves the swap in that state.
pub proof fn law_unproven_rate_never_verifies(
    state: SwapState,
    bit_width: usize,
    outcome: Result<(), RangeProofError>,
)
    requires
        state.exchange_rate_commitment is None || state.exchange_rate_proof is None,
        state.may_report(bit_width, outcome),
    ensures
        outcome == Err::<(), RangeProofError>(RangeProofError::VerificationError),
{
}

/// A rate proof made for one commitment fails every check against another:
/// where the stored proof was not made for the stored commitment, whatever a
/// check reports, at any bit width, is a `VerificationError`.
pub proof fn law_rate_proof_is_bound_to_its_commitment(
    state: SwapState,
    commitment: Commitment,
    proof: BoundProof,
    bit_width: usize,
    outcome: Result<(), RangeProofError>,
)
    requires
        state.exchange_rate_commitment == Some(commitment),
        state.exchange_rate_proof == Some(proof),
        proof.bound_commitment() != commitment,
        state.may_report(bit_width, outcome),
    ensures
        outcome == Err::<(), RangeProofError>(RangeProofError::VerificationError),
{
}

/// A rate proof made for one bit width fails every check against another.
pub proof fn law_rate_proof_is_bound_to_its_width(
    state: SwapState,
    rate_diff: u64,
    made_bits: usize,
    asked_bits: usize,
    outcome: Result<(), RangeProofError>,
)
    requires
        state.rate_proven(rate_diff, made_bits),
        asked_bits != made_bits,
        state.may_report(asked_bits, outcome),
    ensures
        outcome == Err::<(), RangeProofError>(RangeProofError::VerificationError),
{
}

} // verus!
