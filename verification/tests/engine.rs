use bulletproof::engine::{
    prove_range, same_bytes, seal_proof, verdict, verify_range, Commitment, GeneratorParams,
    MAX_BIT_WIDTH, TRANSCRIPT_LABEL,
};
use bulletproof::error::RangeProofError;
use bulletproof::range::value_fits;
use bulletproof::scalar::BlindingFactor;
use bulletproofs::{BulletproofGens, PedersenGens, RangeProof};
use curve25519_dalek::Scalar;
use merlin::Transcript;

fn a_blinding() -> BlindingFactor {
    let mut bytes = [7u8; 32];
    bytes[31] = 3;
    BlindingFactor::from_bytes_mod_order(bytes)
}

#[test]
fn commitment_is_the_engines_pedersen_commitment() {
    let blinding = a_blinding();
    let scalar = Scalar::from_bytes_mod_order(blinding.to_bytes());
    for value in [0u64, 1, 600, u64::MAX] {
        let expected = PedersenGens::default().commit(Scalar::from(value), scalar).compress();
        let commitment = GeneratorParams::new(64).commit(value, &blinding);
        assert_eq!(commitment.to_bytes(), expected.to_bytes());
        assert_ne!(commitment.to_bytes(), blinding.to_bytes());
    }
    assert_ne!(
        GeneratorParams::new(64).commit(1, &blinding),
        GeneratorParams::new(64).commit(2, &blinding)
    );
}

#[test]
fn commitment_bytes_round_trip() {
    let bytes = [0x11u8; 32];
    assert_eq!(Commitment::from_bytes(bytes).to_bytes(), bytes);
}

#[test]
fn generator_capacity_is_capped_at_the_widest_range() {
    assert_eq!(MAX_BIT_WIDTH, 64);
    assert_eq!(GeneratorParams::new(0).gens_capacity(), 0);
    assert_eq!(GeneratorParams::new(8).gens_capacity(), 8);
    assert_eq!(GeneratorParams::new(64).gens_capacity(), 64);
    assert_eq!(GeneratorParams::new(65).gens_capacity(), 64);
    assert_eq!(GeneratorParams::new(usize::MAX).gens_capacity(), 64);
}

#[test]
fn value_fits_at_the_edges() {
    assert!(value_fits(0, 0));
    assert!(!value_fits(1, 0));
    assert!(value_fits(1, 1));
    assert!(!value_fits(2, 1));
    assert!(value_fits(255, 8));
    assert!(!value_fits(256, 8));
    assert!(value_fits((1 << 63) - 1, 63));
    assert!(!value_fits(1 << 63, 63));
    assert!(value_fits(u64::MAX, 64));
    assert!(value_fits(u64::MAX, 65));
    assert!(value_fits(u64::MAX, usize::MAX));
}

#[test]
fn proof_is_bound_to_its_width_and_verifies_there() {
    let params = GeneratorParams::new(64);
    let blinding = a_blinding();
    let commitment = params.commit(1000, &blinding);
    let proof = prove_range(&params, 1000, &blinding, 16).unwrap();
    assert_eq!(proof.bit_width(), 16);
    assert_eq!(proof.commitment(), &commitment);
    assert_eq!(verify_range(&params, &proof, &commitment, 16), Ok(()));
    assert_eq!(
        verify_range(&params, &proof, &commitment, 32),
        Err(RangeProofError::VerificationError)
    );
    let other = params.commit(1001, &blinding);
    assert_eq!(
        verify_range(&params, &proof, &other, 16),
        Err(RangeProofError::VerificationError)
    );
}

#[test]
fn proof_verifies_with_the_engine_directly() {
    let params = GeneratorParams::new(32);
    let blinding = a_blinding();
    let commitment = params.commit(77, &blinding);
    let proof = prove_range(&params, 77, &blinding, 32).unwrap();
    let mut transcript = Transcript::new(TRANSCRIPT_LABEL.as_bytes());
    let outcome = proof.as_engine_proof().verify_single(
        &BulletproofGens::new(32, 1),
        &PedersenGens::default(),
        &mut transcript,
        &curve25519_dalek::ristretto::CompressedRistretto(commitment.to_bytes()),
        32,
    );
    assert_eq!(outcome, Ok(()));
}

#[test]
fn engines_own_proof_verifies_here() {
    let blinding = a_blinding();
    let mut transcript = Transcript::new(TRANSCRIPT_LABEL.as_bytes());
    let made = RangeProof::prove_single(
        &BulletproofGens::new(8, 1),
        &PedersenGens::default(),
        &mut transcript,
        200,
        &Scalar::from_bytes_mod_order(blinding.to_bytes()),
        8,
    );
    let commitment = made.as_ref().map(|pair| Commitment::from_bytes(pair.1.to_bytes())).unwrap();
    let params = GeneratorParams::new(8);
    assert_eq!(commitment, params.commit(200, &blinding));
    let proof = seal_proof(made.map(|pair| (pair.0, pair.1.to_bytes())), 8).unwrap();
    assert_eq!(proof.commitment(), &commitment);
    assert_eq!(proof.bit_width(), 8);
    assert_eq!(verify_range(&params, &proof, &commitment, 8), Ok(()));
}

#[test]
fn value_out_of_range_is_refused_before_the_engine() {
    let params = GeneratorParams::new(64);
    for (value, bits) in [(256u64, 8usize), (1, 0), (u64::MAX, 63), (300, 7)] {
        assert_eq!(
            prove_range(&params, value, &a_blinding(), bits).err(),
            Some(RangeProofError::RangeViolation)
        );
    }
}

#[test]
fn engine_refuses_widths_it_does_not_support() {
    let params = GeneratorParams::new(64);
    for bits in [7usize, 9, 24, 63, 65, 128] {
        assert_eq!(
            prove_range(&params, 1, &a_blinding(), bits).err(),
            Some(RangeProofError::EngineFailure(bulletproofs::ProofError::InvalidBitsize))
        );
    }
    assert_eq!(
        prove_range(&params, 0, &a_blinding(), 0).err(),
        Some(RangeProofError::EngineFailure(bulletproofs::ProofError::InvalidBitsize))
    );
}

#[test]
fn engine_refuses_widths_beyond_the_generators() {
    let params = GeneratorParams::new(16);
    assert_eq!(
        prove_range(&params, 1, &a_blinding(), 32).err(),
        Some(RangeProofError::EngineFailure(bulletproofs::ProofError::InvalidGeneratorsLength))
    );
    assert!(prove_range(&params, 1, &a_blinding(), 16).is_ok());
    assert!(prove_range(&params, 1, &a_blinding(), 8).is_ok());
}

#[test]
fn verification_needs_generators_for_the_width() {
    let blinding = a_blinding();
    let proof = prove_range(&GeneratorParams::new(64), 5, &blinding, 32).unwrap();
    let commitment = GeneratorParams::new(64).commit(5, &blinding);
    assert_eq!(
        verify_range(&GeneratorParams::new(16), &proof, &commitment, 32),
        Err(RangeProofError::VerificationError)
    );
    assert_eq!(verify_range(&GeneratorParams::new(32), &proof, &commitment, 32), Ok(()));
    assert_eq!(verify_range(&GeneratorParams::new(1000), &proof, &commitment, 32), Ok(()));
}

#[test]
fn sealing_hands_the_engines_failure_on() {
    assert_eq!(
        seal_proof(Err(bulletproofs::ProofError::InvalidAggregation), 8).err(),
        Some(RangeProofError::EngineFailure(bulletproofs::ProofError::InvalidAggregation))
    );
}

#[test]
fn every_refusal_of_the_engine_is_a_verification_error() {
    assert_eq!(verdict(Ok(())), Ok(()));
    assert_eq!(
        verdict(Err(bulletproofs::ProofError::VerificationError)),
        Err(RangeProofError::VerificationError)
    );
    assert_eq!(
        verdict(Err(bulletproofs::ProofError::InvalidBitsize)),
        Err(RangeProofError::VerificationError)
    );
}

#[test]
fn bytes_are_compared_one_by_one() {
    let a = [9u8; 32];
    let mut b = a;
    assert!(same_bytes(&a, &b));
    b[31] = 8;
    assert!(!same_bytes(&a, &b));
    b[31] = 9;
    b[0] = 0;
    assert!(!same_bytes(&a, &b));
}

#[test]
fn proof_sealed_with_another_commitment_is_refused() {
    let blinding = a_blinding();
    let mut transcript = Transcript::new(TRANSCRIPT_LABEL.as_bytes());
    let made = RangeProof::prove_single(
        &BulletproofGens::new(8, 1),
        &PedersenGens::default(),
        &mut transcript,
        200,
        &Scalar::from_bytes_mod_order(blinding.to_bytes()),
        8,
    );
    let params = GeneratorParams::new(8);
    let commitment = params.commit(200, &blinding);
    let proof = seal_proof(made.map(|pair| (pair.0, [0u8; 32])), 8).unwrap();
    assert_eq!(
        verify_range(&params, &proof, &commitment, 8),
        Err(RangeProofError::VerificationError)
    );
}

#[test]
fn failures_are_described_by_name() {
    assert_eq!(RangeProofError::RangeViolation.describe(), "RangeViolation");
    assert_eq!(RangeProofError::VerificationError.describe(), "VerificationError");
    assert_eq!(
        RangeProofError::EngineFailure(bulletproofs::ProofError::InvalidBitsize).describe(),
        "InvalidBitsize"
    );
    assert_eq!(
        RangeProofError::RandomnessUnavailable(getrandom::Error::UNSUPPORTED).describe(),
        format!("RandomnessUnavailable({:?})", getrandom::Error::UNSUPPORTED)
    );
}
