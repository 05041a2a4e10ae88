use bulletproof::confidential_swap::{check_rate, ConfidentialSwap, SwapError, SwapParticipant};
use bulletproof::engine::GeneratorParams;
use bulletproof::error::RangeProofError;
use bulletproof::scalar::BlindingFactor;

fn fixed_blinding(seed: u8) -> BlindingFactor {
    let mut bytes = [0u8; 32];
    bytes[0] = seed;
    bytes[17] = 0xc3;
    BlindingFactor::from_bytes_mod_order(bytes)
}

#[test]
fn rate_beyond_the_threshold_is_rejected() {
    let mut swap = ConfidentialSwap::new(600, 200, 8).unwrap();
    let rejected = swap.prove_exchange_rate(2, 8, 1).err();
    assert_eq!(
        rejected,
        Some(SwapError::ExchangeRateExceedThreshold {
            actual_rate: 0,
            expected_rate: 2,
            max_allowed_diff: 1,
        })
    );
    assert!(swap.exchange_rate_commitment.is_none());
    assert!(swap.exchange_rate_proof.is_none());
    assert_eq!(swap.verify_exchange_rate(8), Err(RangeProofError::VerificationError));
}

#[test]
fn rate_within_the_threshold_is_proved_and_verifies() {
    let mut swap = ConfidentialSwap::new(2, 4, 8).unwrap();
    let width = swap.prove_exchange_rate(2, 8, 0).map(|proof| proof.bit_width());
    assert_eq!(width, Ok(8));
    assert!(swap.exchange_rate_commitment.is_some());
    assert!(swap.exchange_rate_proof.is_some());
    assert_eq!(swap.verify_exchange_rate(8), Ok(()));
    assert_eq!(swap.verify_exchange_rate(8), Ok(()));
}

#[test]
fn zero_asset_value_is_a_division_error() {
    let mut swap = ConfidentialSwap::new(0, 4, 8).unwrap();
    assert_eq!(swap.prove_exchange_rate(2, 8, 100).err(), Some(SwapError::DivisionByZero));
    assert!(swap.exchange_rate_commitment.is_none());
    assert!(swap.exchange_rate_proof.is_none());
    assert_eq!(swap.verify_exchange_rate(8), Err(RangeProofError::VerificationError));
}

#[test]
fn rate_rule_on_plain_numbers() {
    assert_eq!(check_rate(2, 4, 2, 0), Ok(0));
    assert_eq!(check_rate(3, 10, 1, 2), Ok(2));
    assert_eq!(check_rate(3, 10, 5, 2), Ok(2));
    assert_eq!(check_rate(1, u64::MAX, 0, u64::MAX), Ok(u64::MAX));
    assert_eq!(check_rate(0, 0, 0, u64::MAX), Err(SwapError::DivisionByZero));
    assert_eq!(
        check_rate(3, 10, 6, 2),
        Err(SwapError::ExchangeRateExceedThreshold {
            actual_rate: 3,
            expected_rate: 6,
            max_allowed_diff: 2,
        })
    );
    assert_eq!(
        check_rate(600, 200, 2, 1),
        Err(SwapError::ExchangeRateExceedThreshold {
            actual_rate: 0,
            expected_rate: 2,
            max_allowed_diff: 1,
        })
    );
}

#[test]
fn new_swap_holds_two_committed_parties_and_no_rate() {
    let swap = ConfidentialSwap::with_blindings(600, 200, 16, fixed_blinding(1), fixed_blinding(2));
    assert_eq!(swap.alice.name, "Alice");
    assert_eq!(swap.alice.asset_value, 600);
    assert_eq!(swap.alice.blinding_factor, fixed_blinding(1));
    assert_eq!(swap.bob.name, "Bob");
    assert_eq!(swap.bob.asset_value, 200);
    assert_eq!(swap.bob.blinding_factor, fixed_blinding(2));
    let params = GeneratorParams::new(16);
    assert_eq!(swap.alice.commitment, params.commit(600, &fixed_blinding(1)));
    assert_eq!(swap.bob.commitment, params.commit(200, &fixed_blinding(2)));
    assert!(swap.exchange_rate_commitment.is_none());
    assert!(swap.exchange_rate_proof.is_none());
}

#[test]
fn participant_commits_to_its_asset_value() {
    let params = GeneratorParams::new(32);
    let carol = SwapParticipant::with_blinding("Carol", 77, &params, fixed_blinding(9));
    assert_eq!(carol.name, "Carol");
    assert_eq!(carol.asset_value, 77);
    assert_eq!(carol.commitment, params.commit(77, &fixed_blinding(9)));
    let dave = SwapParticipant::new("Dave", 77, &params).unwrap();
    assert_eq!(dave.name, "Dave");
    assert_eq!(dave.commitment, params.commit(77, &dave.blinding_factor));
    assert_ne!(dave.commitment, carol.commitment);
}

#[test]
fn rate_difference_is_committed_under_the_given_blinding() {
    let mut swap = ConfidentialSwap::with_blindings(3, 10, 8, fixed_blinding(1), fixed_blinding(2));
    assert!(swap.prove_rate_difference(2, 8, fixed_blinding(3)).is_ok());
    assert_eq!(
        swap.exchange_rate_commitment,
        Some(GeneratorParams::new(8).commit(2, &fixed_blinding(3)))
    );
    assert_eq!(swap.verify_exchange_rate(8), Ok(()));
}

#[test]
fn rate_proof_fails_against_another_width() {
    let mut swap = ConfidentialSwap::new(2, 4, 64).unwrap();
    assert!(swap.prove_exchange_rate(2, 16, 0).is_ok());
    assert_eq!(swap.verify_exchange_rate(8), Err(RangeProofError::VerificationError));
    assert_eq!(swap.verify_exchange_rate(32), Err(RangeProofError::VerificationError));
    assert_eq!(swap.verify_exchange_rate(16), Ok(()));
}

#[test]
fn rate_proof_fails_against_another_commitment() {
    let mut swap = ConfidentialSwap::new(2, 4, 8).unwrap();
    assert!(swap.prove_exchange_rate(2, 8, 0).is_ok());
    swap.exchange_rate_commitment = Some(swap.alice.commitment);
    assert_eq!(swap.verify_exchange_rate(8), Err(RangeProofError::VerificationError));
}

#[test]
fn difference_too_wide_for_the_proof_is_a_range_violation() {
    let mut swap = ConfidentialSwap::new(1, 1000, 8).unwrap();
    assert_eq!(
        swap.prove_exchange_rate(0, 8, 1000).err(),
        Some(SwapError::ProofCreationError(RangeProofError::RangeViolation))
    );
    assert!(swap.exchange_rate_commitment.is_none());
    assert!(swap.exchange_rate_proof.is_none());
    assert!(swap.prove_exchange_rate(0, 16, 1000).is_err());
}

#[test]
fn engine_refusal_comes_wrapped_and_leaves_the_swap_unchanged() {
    let mut swap = ConfidentialSwap::new(2, 4, 8).unwrap();
    assert_eq!(
        swap.prove_exchange_rate(2, 7, 0).err(),
        Some(SwapError::ProofCreationError(RangeProofError::EngineFailure(
            bulletproofs::ProofError::InvalidBitsize
        )))
    );
    assert_eq!(
        swap.prove_exchange_rate(2, 16, 0).err(),
        Some(SwapError::ProofCreationError(RangeProofError::EngineFailure(
            bulletproofs::ProofError::InvalidGeneratorsLength
        )))
    );
    assert!(swap.exchange_rate_commitment.is_none());
    assert!(swap.exchange_rate_proof.is_none());
}

#[test]
fn second_proof_replaces_the_first() {
    let mut swap = ConfidentialSwap::new(2, 4, 64).unwrap();
    assert!(swap.prove_exchange_rate(2, 8, 0).is_ok());
    let first = swap.exchange_rate_commitment;
    assert!(swap.prove_exchange_rate(1, 16, 5).is_ok());
    assert_ne!(swap.exchange_rate_commitment, first);
    assert_eq!(swap.verify_exchange_rate(16), Ok(()));
    assert_eq!(swap.verify_exchange_rate(8), Err(RangeProofError::VerificationError));
}

#[test]
fn rejection_keeps_an_earlier_proof() {
    let mut swap = ConfidentialSwap::new(2, 4, 8).unwrap();
    assert!(swap.prove_exchange_rate(2, 8, 0).is_ok());
    let kept = swap.exchange_rate_commitment;
    assert!(swap.prove_exchange_rate(9, 8, 1).is_err());
    assert_eq!(swap.exchange_rate_commitment, kept);
    assert_eq!(swap.verify_exchange_rate(8), Ok(()));
}

#[test]
fn messages_name_the_offending_values() {
    let rejected = SwapError::ExchangeRateExceedThreshold {
        actual_rate: 0,
        expected_rate: 2,
        max_allowed_diff: 1,
    };
    assert_eq!(
        rejected.message(),
        "The exchange rate difference exceeds the maximum allowed difference. \
         Actual rate: 0, Expected rate: 2, Max allowed difference: 1"
    );
    let large = SwapError::ExchangeRateExceedThreshold {
        actual_rate: u64::MAX,
        expected_rate: 1234567890,
        max_allowed_diff: 100,
    };
    assert_eq!(
        large.message(),
        "The exchange rate difference exceeds the maximum allowed difference. \
         Actual rate: 18446744073709551615, Expected rate: 1234567890, Max allowed difference: 100"
    );
    assert_eq!(
        SwapError::DivisionByZero.message(),
        "Division by zero: Alice's asset value is zero"
    );
    assert_eq!(
        SwapError::ProofCreationError(RangeProofError::RangeViolation).message(),
        "Proof creation failed: RangeViolation"
    );
    assert_eq!(
        SwapError::ProofCreationError(RangeProofError::VerificationError).message(),
        "Proof creation failed: VerificationError"
    );
    assert_eq!(
        SwapError::ProofCreationError(RangeProofError::EngineFailure(
            bulletproofs::ProofError::InvalidBitsize
        ))
        .message(),
        "Proof creation failed: InvalidBitsize"
    );
    assert_eq!(
        SwapError::ProofCreationError(RangeProofError::RandomnessUnavailable(
            getrandom::Error::UNSUPPORTED
        ))
        .message(),
        format!("Proof creation failed: RandomnessUnavailable({:?})", getrandom::Error::UNSUPPORTED)
    );
}

#[test]
fn proving_failure_converts_into_a_swap_error() {
    assert_eq!(
        SwapError::from(RangeProofError::RangeViolation),
        SwapError::ProofCreationError(RangeProofError::RangeViolation)
    );
    let wrapped: SwapError =
        RangeProofError::EngineFailure(bulletproofs::ProofError::InvalidGeneratorsLength).into();
    assert_eq!(
        wrapped,
        SwapError::ProofCreationError(RangeProofError::EngineFailure(
            bulletproofs::ProofError::InvalidGeneratorsLength
        ))
    );
}

#[test]
fn getters_show_what_the_swap_holds() {
    let mut swap = ConfidentialSwap::with_blindings(3, 10, 8, fixed_blinding(1), fixed_blinding(2));
    assert_eq!(swap.alice().asset_value, 3);
    assert_eq!(swap.alice().name, "Alice");
    assert_eq!(swap.bob().asset_value, 10);
    assert_eq!(swap.bob().commitment, swap.bob.commitment);
    assert!(swap.exchange_rate_commitment().is_none());
    assert!(swap.exchange_rate_proof().is_none());
    assert!(swap.prove_rate_difference(2, 8, fixed_blinding(3)).is_ok());
    let expected = GeneratorParams::new(8).commit(2, &fixed_blinding(3));
    assert_eq!(swap.exchange_rate_commitment(), &Some(expected));
    let bound = swap.exchange_rate_proof().as_ref().map(|proof| (*proof.commitment(), proof.bit_width()));
    assert_eq!(bound, Some((expected, 8)));
}
