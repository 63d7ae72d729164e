use shadow_privacy::load_verification_key_from_account;
use shadow_privacy::processor::Processor;
use shadow_privacy::registry::CircuitType;
use shadow_privacy::state::PoolState;
use shadow_privacy::verification::VerificationMode;
use shadow_privacy::verify_transfer_proof;
use shadow_privacy::{EngineError, PrivacyError};

fn vk_account_bytes(
    tag: u8,
    pool: [u8; 32],
    authority: [u8; 32],
    vk: &[u8],
    stored_at: i64,
    bump: u8,
) -> Vec<u8> {
    let mut d = vec![tag];
    d.extend_from_slice(&pool);
    d.extend_from_slice(&authority);
    d.extend_from_slice(&(vk.len() as u32).to_le_bytes());
    d.extend_from_slice(vk);
    d.extend_from_slice(&stored_at.to_le_bytes());
    d.push(bump);
    d
}

#[test]
fn parse_valid_record() {
    let d = vk_account_bytes(1, [3u8; 32], [4u8; 32], &[9, 8, 7, 6, 5], 123_456, 250);
    let a = load_verification_key_from_account(&d).unwrap();
    assert_eq!(a.circuit_type, CircuitType::Balance);
    assert_eq!(a.pool, [3u8; 32]);
    assert_eq!(a.authority, [4u8; 32]);
    assert_eq!(a.vk_data, vec![9, 8, 7, 6, 5]);
    assert_eq!(a.stored_at, 123_456);
    assert_eq!(a.bump, 250);
}

#[test]
fn parse_negative_timestamp() {
    let d = vk_account_bytes(2, [0u8; 32], [0u8; 32], &[1], -2, 0);
    let a = load_verification_key_from_account(&d).unwrap();
    assert_eq!(a.circuit_type, CircuitType::RingSignature);
    assert_eq!(a.stored_at, -2);
}

#[test]
fn parse_rejects_trailing_bytes() {
    let mut d = vk_account_bytes(0, [3u8; 32], [4u8; 32], &[9], 1, 0);
    d.push(0);
    assert_eq!(
        load_verification_key_from_account(&d).unwrap_err(),
        EngineError::Privacy(PrivacyError::InvalidVerificationKey)
    );
}

#[test]
fn parse_rejects_truncated_record() {
    let d = vk_account_bytes(0, [3u8; 32], [4u8; 32], &[9, 9], 1, 0);
    assert_eq!(
        load_verification_key_from_account(&d[..d.len() - 3]).unwrap_err(),
        EngineError::Privacy(PrivacyError::InvalidVerificationKey)
    );
    assert_eq!(
        load_verification_key_from_account(&[]).unwrap_err(),
        EngineError::Privacy(PrivacyError::InvalidVerificationKey)
    );
}

#[test]
fn parse_rejects_lying_length_prefix() {
    let mut d = vk_account_bytes(0, [3u8; 32], [4u8; 32], &[9, 9, 9], 1, 0);
    d[65] = 2;
    assert_eq!(
        load_verification_key_from_account(&d).unwrap_err(),
        EngineError::Privacy(PrivacyError::InvalidVerificationKey)
    );
}

#[test]
fn parse_rejects_unknown_circuit_tag() {
    let d = vk_account_bytes(9, [3u8; 32], [4u8; 32], &[9], 1, 0);
    assert_eq!(
        load_verification_key_from_account(&d).unwrap_err(),
        EngineError::Privacy(PrivacyError::InvalidVerificationKey)
    );
}

#[test]
fn strict_check_rejects_undecodable_key() {
    // A well-formed record whose key bytes are not a verifying key.
    let d = vk_account_bytes(0, [3u8; 32], [4u8; 32], &[1, 2, 3], 1, 0);
    let inputs = vec![vec![0u8; 32]];
    let r = verify_transfer_proof(&[0u8; 64], &inputs, &d, VerificationMode::Strict);
    assert_eq!(
        r.unwrap_err(),
        EngineError::Privacy(PrivacyError::InvalidVerificationKey)
    );
}

#[test]
fn strict_check_rejects_short_public_input() {
    let d = vk_account_bytes(0, [3u8; 32], [4u8; 32], &[1, 2, 3], 1, 0);
    let inputs = vec![vec![0u8; 32], vec![0u8; 8]];
    let r = verify_transfer_proof(&[0u8; 64], &inputs, &d, VerificationMode::Strict);
    assert_eq!(
        r.unwrap_err(),
        EngineError::Privacy(PrivacyError::InvalidPublicInputs)
    );
}

#[test]
fn permissive_check_reports_success() {
    let r = verify_transfer_proof(&[], &[], &[], VerificationMode::Permissive);
    assert_eq!(r.unwrap(), true);
}

#[test]
fn balance_attestation_permissive_succeeds() {
    let r = Processor::process_verify_balance(
        &[0u8; 16],
        1_000,
        [2u8; 32],
        &[],
        VerificationMode::Permissive,
    );
    assert!(r.is_ok());
}

#[test]
fn balance_attestation_strict_rejects_eight_byte_input() {
    // The minimum balance enters the public inputs as eight bytes, which the
    // 32-byte field-element check refuses: the strict path always fails.
    let d = vk_account_bytes(1, [3u8; 32], [4u8; 32], &[1, 2, 3], 1, 0);
    let r = Processor::process_verify_balance(
        &[0u8; 16],
        1_000,
        [2u8; 32],
        &d,
        VerificationMode::Strict,
    );
    assert_eq!(
        r.unwrap_err(),
        EngineError::Privacy(PrivacyError::InvalidPublicInputs)
    );
}

#[test]
fn error_codes_are_stable() {
    assert_eq!(PrivacyError::InvalidInstruction.code(), 0);
    assert_eq!(PrivacyError::InvalidProof.code(), 1);
    assert_eq!(PrivacyError::NullifierAlreadyUsed.code(), 2);
    assert_eq!(PrivacyError::KeyImageAlreadyUsed.code(), 7);
    assert_eq!(PrivacyError::InvalidAmount.code(), 8);
    assert_eq!(PrivacyError::PoolNotInitialized.code(), 11);
    assert_eq!(PrivacyError::Unauthorized.code(), 13);
    assert_eq!(PrivacyError::InvalidAccountData.code(), 14);
    assert_eq!(PrivacyError::InvalidPublicInputs.code(), 15);
    assert_eq!(PrivacyError::InvalidVerificationKey.code(), 16);
    assert_eq!(PrivacyError::InvalidSignature.code(), 17);
    assert_eq!(PrivacyError::InvalidRingSize.code(), 18);
}

#[test]
fn derived_addresses_deterministic_and_distinct() {
    let pool = [1u8; 32];
    let program_id = [2u8; 32];
    let a1 = PoolState::derive_nullifier_pda(&pool, &[5u8; 32], &program_id).unwrap();
    let a2 = PoolState::derive_nullifier_pda(&pool, &[5u8; 32], &program_id).unwrap();
    assert_eq!(a1, a2);
    let b = PoolState::derive_nullifier_pda(&pool, &[6u8; 32], &program_id).unwrap();
    assert_ne!(a1.0, b.0);
    let k = PoolState::derive_key_image_pda(&pool, &[5u8; 32], &program_id).unwrap();
    assert_ne!(a1.0, k.0);
    let v = PoolState::derive_vault_address(&pool, &program_id).unwrap();
    assert_ne!(v.0, a1.0);
}
