use shadow_privacy::processor::Processor;
use shadow_privacy::verification::VerificationMode;
use shadow_privacy::{EngineError, PrivacyError};

#[test]
fn issue_asset_requires_signer() {
    let r = Processor::process_issue_asset(
        [1u8; 32],
        false,
        b"Shade".to_vec(),
        b"SHD".to_vec(),
        9,
        1_000_000,
        [5u8; 32],
    );
    assert_eq!(r.unwrap_err(), EngineError::MissingRequiredSignature);
}

#[test]
fn issue_asset_writes_fresh_ledger() {
    let a = Processor::process_issue_asset(
        [1u8; 32],
        true,
        b"Shade".to_vec(),
        b"SHD".to_vec(),
        9,
        1_000_000,
        [5u8; 32],
    )
    .unwrap();
    assert!(a.is_initialized);
    assert_eq!(a.asset_id, [5u8; 32]);
    assert_eq!(a.issuer, [1u8; 32]);
    assert_eq!(a.name, b"Shade".to_vec());
    assert_eq!(a.symbol, b"SHD".to_vec());
    assert_eq!(a.decimals, 9);
    assert_eq!(a.total_supply, 1_000_000);
    assert_eq!(a.circulating_supply, 0);
    assert_eq!(a.note_count, 0);
    assert!(a.used_nullifiers.is_empty());
}

#[test]
fn transfer_asset_records_nullifier_once() {
    let mut a = Processor::process_issue_asset(
        [1u8; 32],
        true,
        b"Shade".to_vec(),
        b"SHD".to_vec(),
        9,
        1_000_000,
        [5u8; 32],
    )
    .unwrap();
    let nullifier = [6u8; 32];
    Processor::process_transfer_asset(
        &mut a,
        &[0u8; 8],
        [5u8; 32],
        nullifier,
        [7u8; 32],
        &[],
        &[],
        VerificationMode::Permissive,
    )
    .unwrap();
    assert_eq!(a.note_count, 1);
    assert_eq!(a.used_nullifiers.len(), 1);

    let again = Processor::process_transfer_asset(
        &mut a,
        &[0u8; 8],
        [5u8; 32],
        nullifier,
        [7u8; 32],
        &[],
        &[],
        VerificationMode::Permissive,
    );
    assert_eq!(
        again.unwrap_err(),
        EngineError::Privacy(PrivacyError::NullifierAlreadyUsed)
    );
    assert_eq!(a.note_count, 1);
}

#[test]
fn transfer_asset_checks_asset_id() {
    let mut a = Processor::process_issue_asset(
        [1u8; 32],
        true,
        b"Shade".to_vec(),
        b"SHD".to_vec(),
        9,
        1_000_000,
        [5u8; 32],
    )
    .unwrap();
    let r = Processor::process_transfer_asset(
        &mut a,
        &[0u8; 8],
        [9u8; 32],
        [6u8; 32],
        [7u8; 32],
        &[],
        &[],
        VerificationMode::Permissive,
    );
    assert_eq!(
        r.unwrap_err(),
        EngineError::Privacy(PrivacyError::InvalidAccountData)
    );
    assert_eq!(a.note_count, 0);
}

#[test]
fn transfer_asset_strict_needs_stored_key() {
    let mut a = Processor::process_issue_asset(
        [1u8; 32],
        true,
        b"Shade".to_vec(),
        b"SHD".to_vec(),
        9,
        1_000_000,
        [5u8; 32],
    )
    .unwrap();
    let r = Processor::process_transfer_asset(
        &mut a,
        &[0u8; 8],
        [5u8; 32],
        [6u8; 32],
        [7u8; 32],
        &[],
        &[],
        VerificationMode::Strict,
    );
    assert_eq!(
        r.unwrap_err(),
        EngineError::Privacy(PrivacyError::InvalidVerificationKey)
    );
    assert_eq!(a.note_count, 0);
}
