use sha3::Digest;

use zk_verifier::Error;
use zk_verifier::ReplayRegistry;
use zk_verifier::get_proof_usage_timestamp;
use zk_verifier::is_proof_used;
use zk_verifier::validate_proof_structure;
use zk_verifier::verify_price_proof;

fn sample_proof() -> Vec<u8> {
    let mut proof_bytes = vec![0u8; 300];
    proof_bytes[0] = 1;
    proof_bytes
}

#[test]
fn test_validate_proof_structure_valid() {
    // Valid proof (300 bytes, not all zeros)
    let mut proof_bytes = vec![0u8; 300];
    proof_bytes[0] = 1;
    proof_bytes[10] = 42;

    let result = validate_proof_structure(&proof_bytes);
    assert!(result.is_ok());
}

#[test]
fn test_validate_proof_structure_empty() {
    let proof: Vec<u8> = Vec::new();

    let result = validate_proof_structure(&proof);
    assert_eq!(result, Err(Error::EmptyProof));
}

#[test]
fn test_validate_proof_structure_too_small() {
    let proof = vec![1u8; 100]; // Too small

    let result = validate_proof_structure(&proof);
    assert_eq!(result, Err(Error::BadProofLen));
}

#[test]
fn test_validate_proof_structure_all_zeros() {
    let proof = vec![0u8; 300];

    let result = validate_proof_structure(&proof);
    assert_eq!(result, Err(Error::ZeroProof));
}

#[test]
fn test_verify_price_proof_valid() {
    let mut registry = ReplayRegistry::new();
    let proof = sample_proof();

    // Price: 3005000000 (7 decimals) = $300.50
    // Circuit output: 30050 (2 decimals)
    let expected_price = 3_005_000_000i128;
    let timestamp = 1700000000u64;

    let public_inputs = vec![30050u32];

    let result = verify_price_proof(&mut registry, &proof, &public_inputs, expected_price, timestamp);

    assert!(result.is_ok());
    assert_eq!(result.unwrap(), true);
}

#[test]
fn test_verify_price_proof_mismatch() {
    let mut registry = ReplayRegistry::new();
    let proof = sample_proof();

    let expected_price = 3_005_000_000i128;
    let timestamp = 1700000000u64;

    let public_inputs = vec![40000u32]; // Wrong price

    let result = verify_price_proof(&mut registry, &proof, &public_inputs, expected_price, timestamp);

    assert_eq!(result, Err(Error::PriceMismatch));
}

#[test]
fn test_proof_replay_protection() {
    let mut registry = ReplayRegistry::new();
    let proof = sample_proof();

    let expected_price = 3_005_000_000i128;
    let timestamp = 1700000000u64;

    let public_inputs = vec![30050u32];

    // First verification should succeed
    let result1 =
        verify_price_proof(&mut registry, &proof, &public_inputs, expected_price, timestamp);
    assert!(result1.is_ok());

    // Second verification with same proof should fail (replay attack)
    let result2 =
        verify_price_proof(&mut registry, &proof, &public_inputs, expected_price, timestamp + 100);
    assert_eq!(result2, Err(Error::ProofAlreadyUsed));
}

#[test]
fn test_verify_empty_public_inputs() {
    let mut registry = ReplayRegistry::new();
    let proof = sample_proof();
    let public_inputs: Vec<u32> = Vec::new();

    let result = verify_price_proof(&mut registry, &proof, &public_inputs, 3_005_000_000, 1700000000);
    assert_eq!(result, Err(Error::NoPublicInput));
}

#[test]
fn test_verify_structural_errors_reported() {
    let mut registry = ReplayRegistry::new();
    let public_inputs = vec![30050u32];

    let empty: Vec<u8> = Vec::new();
    let result = verify_price_proof(&mut registry, &empty, &public_inputs, 3_005_000_000, 1);
    assert_eq!(result, Err(Error::EmptyProof));

    let small = vec![1u8; 100];
    let result = verify_price_proof(&mut registry, &small, &public_inputs, 3_005_000_000, 1);
    assert_eq!(result, Err(Error::BadProofLen));

    let zeros = vec![0u8; 300];
    let result = verify_price_proof(&mut registry, &zeros, &public_inputs, 3_005_000_000, 1);
    assert_eq!(result, Err(Error::ZeroProof));
}

#[test]
fn test_zero_prefix_only_scans_first_64_bytes() {
    // Non-zero bytes beyond offset 64 do not rescue an all-zero prefix.
    let mut proof = vec![0u8; 300];
    proof[299] = 7;
    assert_eq!(validate_proof_structure(&proof), Err(Error::ZeroProof));

    // A non-zero byte inside the first 64 bytes does.
    let mut proof = vec![0u8; 300];
    proof[63] = 7;
    assert!(validate_proof_structure(&proof).is_ok());
}

#[test]
fn test_price_rescaling_truncates() {
    // 3_005_099_999 / 100000 truncates to 30050, so it still matches.
    let mut registry = ReplayRegistry::new();
    let proof = sample_proof();
    let public_inputs = vec![30050u32];
    let result = verify_price_proof(&mut registry, &proof, &public_inputs, 3_005_099_999, 1);
    assert_eq!(result, Ok(true));

    // 3_004_999_999 / 100000 truncates to 30049: a mismatch.
    let mut registry = ReplayRegistry::new();
    let result = verify_price_proof(&mut registry, &proof, &public_inputs, 3_004_999_999, 1);
    assert_eq!(result, Err(Error::PriceMismatch));
}

#[test]
fn test_negative_expected_price() {
    let proof = sample_proof();

    // A negative expected price never matches a positive disclosed price.
    let mut registry = ReplayRegistry::new();
    let public_inputs = vec![30050u32];
    let result = verify_price_proof(&mut registry, &proof, &public_inputs, -3_005_000_000, 1);
    assert_eq!(result, Err(Error::PriceMismatch));

    // Truncation toward zero: -50000 rescales to 0 and matches a disclosed 0.
    let mut registry = ReplayRegistry::new();
    let public_inputs = vec![0u32];
    let result = verify_price_proof(&mut registry, &proof, &public_inputs, -50000, 1);
    assert_eq!(result, Ok(true));

    // -100000 rescales to -1: a mismatch even against 0.
    let mut registry = ReplayRegistry::new();
    let result = verify_price_proof(&mut registry, &proof, &public_inputs, -100000, 1);
    assert_eq!(result, Err(Error::PriceMismatch));
}

#[test]
fn test_registry_keyed_by_keccak_digest() {
    let mut registry = ReplayRegistry::new();
    let proof = sample_proof();
    let public_inputs = vec![30050u32];

    let result = verify_price_proof(&mut registry, &proof, &public_inputs, 3_005_000_000, 42);
    assert_eq!(result, Ok(true));

    // The registry is keyed by the Keccak-256 digest of the proof bytes,
    // computed here independently.
    let digest: Vec<u8> = sha3::Keccak256::digest(&proof).to_vec();
    assert!(is_proof_used(&registry, &digest));
    assert_eq!(get_proof_usage_timestamp(&registry, &digest), Some(42));

    // The raw proof bytes are not themselves a key.
    let prefix: Vec<u8> = proof[..32].to_vec();
    assert!(!is_proof_used(&registry, &prefix));
}

#[test]
fn test_usage_timestamp_survives_failed_attempts() {
    let mut registry = ReplayRegistry::new();
    let proof = sample_proof();
    let public_inputs = vec![30050u32];

    let result = verify_price_proof(&mut registry, &proof, &public_inputs, 3_005_000_000, 1700000000);
    assert_eq!(result, Ok(true));

    let digest: Vec<u8> = sha3::Keccak256::digest(&proof).to_vec();
    assert_eq!(get_proof_usage_timestamp(&registry, &digest), Some(1700000000));

    // A later failed attempt with different proof bytes leaves the record as it is.
    let other = vec![1u8; 100];
    let result = verify_price_proof(&mut registry, &other, &public_inputs, 3_005_000_000, 9999);
    assert_eq!(result, Err(Error::BadProofLen));
    assert_eq!(get_proof_usage_timestamp(&registry, &digest), Some(1700000000));

    // So does a replayed attempt with a different timestamp.
    let result = verify_price_proof(&mut registry, &proof, &public_inputs, 3_005_000_000, 9999);
    assert_eq!(result, Err(Error::ProofAlreadyUsed));
    assert_eq!(get_proof_usage_timestamp(&registry, &digest), Some(1700000000));
}

#[test]
fn test_unknown_digest_has_no_timestamp() {
    let registry = ReplayRegistry::new();
    let digest = vec![0xabu8; 32];
    assert!(!is_proof_used(&registry, &digest));
    assert_eq!(get_proof_usage_timestamp(&registry, &digest), None);
}

#[test]
fn test_multi_megabyte_proof_verifies() {
    // Genuine proof artifacts are multi-kilobyte, but nothing bounds the blob
    // above: a multi-megabyte proof must verify normally rather than exhaust
    // some internal work budget.
    let mut registry = ReplayRegistry::new();
    let mut proof = vec![0u8; 4_000_000];
    proof[0] = 1;
    let public_inputs = vec![30050u32];

    let result = verify_price_proof(&mut registry, &proof, &public_inputs, 3_005_000_000, 7);
    assert_eq!(result, Ok(true));

    let digest: Vec<u8> = sha3::Keccak256::digest(&proof).to_vec();
    assert_eq!(get_proof_usage_timestamp(&registry, &digest), Some(7));
}

#[test]
fn test_failed_proof_can_be_retried_until_accepted() {
    let mut registry = ReplayRegistry::new();
    let proof = sample_proof();

    // A price mismatch does not register the proof ...
    let wrong_inputs = vec![40000u32];
    let result = verify_price_proof(&mut registry, &proof, &wrong_inputs, 3_005_000_000, 1);
    assert_eq!(result, Err(Error::PriceMismatch));

    // ... so a corrected retry with the same bytes still succeeds.
    let public_inputs = vec![30050u32];
    let result = verify_price_proof(&mut registry, &proof, &public_inputs, 3_005_000_000, 2);
    assert_eq!(result, Ok(true));
}
