use shadow_privacy::processor::Processor;
use shadow_privacy::registry::{RelayerAccount, VerificationKeyAccount, CircuitType};
use shadow_privacy::state::PoolState;
use shadow_privacy::{EngineError, PrivacyError};

fn fresh_pool() -> PoolState {
    PoolState {
        authority: [7u8; 32],
        merkle_root: [0u8; 32],
        tree_depth: 20,
        commitment_count: 0,
        denomination: 100,
        tvl: 0,
        used_nullifiers: Vec::new(),
        used_key_images: Vec::new(),
        nullifier_count: 0,
        key_image_count: 0,
        vault: [8u8; 32],
        is_initialized: true,
    }
}

fn fresh_relayer() -> RelayerAccount {
    RelayerAccount {
        relayer: [3u8; 32],
        stake: 100_000_000,
        successful_relays: 0,
        failed_relays: 0,
        last_heartbeat: 1_000,
        is_active: true,
        registered_at: 1_000,
        endpoint: b"https://relay.example".to_vec(),
        bump: 254,
    }
}

#[test]
fn oversized_key_rejected() {
    let pool = fresh_pool();
    let r = Processor::process_store_verification_key(
        &pool,
        [1u8; 32],
        [7u8; 32],
        true,
        [0u8; 32],
        0,
        0,
        vec![0u8; 3000],
        [2u8; 32],
        5,
    );
    assert_eq!(
        r.unwrap_err(),
        EngineError::Privacy(PrivacyError::InvalidVerificationKey)
    );
}

#[test]
fn empty_key_rejected() {
    let pool = fresh_pool();
    let r = Processor::process_store_verification_key(
        &pool,
        [1u8; 32],
        [7u8; 32],
        true,
        [0u8; 32],
        0,
        0,
        Vec::new(),
        [2u8; 32],
        5,
    );
    assert_eq!(
        r.unwrap_err(),
        EngineError::Privacy(PrivacyError::InvalidVerificationKey)
    );
}

#[test]
fn store_key_requires_pool_authority() {
    let pool = fresh_pool();
    let r = Processor::process_store_verification_key(
        &pool,
        [1u8; 32],
        [6u8; 32],
        true,
        [0u8; 32],
        0,
        0,
        vec![1, 2, 3],
        [2u8; 32],
        5,
    );
    assert_eq!(r.unwrap_err(), EngineError::Privacy(PrivacyError::Unauthorized));

    let r2 = Processor::process_store_verification_key(
        &pool,
        [1u8; 32],
        [7u8; 32],
        false,
        [0u8; 32],
        0,
        0,
        vec![1, 2, 3],
        [2u8; 32],
        5,
    );
    assert_eq!(r2.unwrap_err(), EngineError::MissingRequiredSignature);
}

#[test]
fn store_key_rejects_unknown_circuit_tag() {
    let pool = fresh_pool();
    let r = Processor::process_store_verification_key(
        &pool,
        [1u8; 32],
        [7u8; 32],
        true,
        [0u8; 32],
        0,
        3,
        vec![1, 2, 3],
        [2u8; 32],
        5,
    );
    assert_eq!(
        r.unwrap_err(),
        EngineError::Privacy(PrivacyError::InvalidAccountData)
    );
}

#[test]
fn store_key_writes_record_at_derived_cell() {
    let pool = fresh_pool();
    let pool_key = [1u8; 32];
    let program_id = [2u8; 32];
    let (addr, bump) =
        VerificationKeyAccount::derive_address(&pool_key, CircuitType::Balance, &program_id)
            .unwrap();
    let stored = Processor::process_store_verification_key(
        &pool,
        pool_key,
        [7u8; 32],
        true,
        addr,
        0,
        1,
        vec![1, 2, 3],
        program_id,
        12345,
    )
    .unwrap();
    assert!(stored.create_account);
    assert_eq!(stored.account.circuit_type, CircuitType::Balance);
    assert_eq!(stored.account.pool, pool_key);
    assert_eq!(stored.account.authority, [7u8; 32]);
    assert_eq!(stored.account.vk_data, vec![1, 2, 3]);
    assert_eq!(stored.account.stored_at, 12345);
    assert_eq!(stored.account.bump, bump);

    // A live cell is overwritten without a fresh creation.
    let overwritten = Processor::process_store_verification_key(
        &pool,
        pool_key,
        [7u8; 32],
        true,
        addr,
        890,
        1,
        vec![4, 5],
        program_id,
        12346,
    )
    .unwrap();
    assert!(!overwritten.create_account);
    assert_eq!(overwritten.account.vk_data, vec![4, 5]);
}

#[test]
fn store_key_rejects_wrong_cell() {
    let pool = fresh_pool();
    let r = Processor::process_store_verification_key(
        &pool,
        [1u8; 32],
        [7u8; 32],
        true,
        [9u8; 32],
        0,
        1,
        vec![1, 2, 3],
        [2u8; 32],
        5,
    );
    assert_eq!(r.unwrap_err(), EngineError::InvalidAccountData);
}

#[test]
fn register_relayer_stake_threshold() {
    let wallet = [3u8; 32];
    let program_id = [2u8; 32];
    let (addr, _bump) = RelayerAccount::derive_address(&wallet, &program_id).unwrap();

    let below = Processor::process_register_relayer(
        wallet,
        true,
        addr,
        0,
        b"https://relay.example".to_vec(),
        99_999_999,
        program_id,
        1_000,
    );
    assert_eq!(
        below.unwrap_err(),
        EngineError::Privacy(PrivacyError::InvalidAmount)
    );

    let at = Processor::process_register_relayer(
        wallet,
        true,
        addr,
        0,
        b"https://relay.example".to_vec(),
        100_000_000,
        program_id,
        1_000,
    )
    .unwrap();
    assert_eq!(at.relayer, wallet);
    assert_eq!(at.stake, 100_000_000);
    assert_eq!(at.successful_relays, 0);
    assert_eq!(at.failed_relays, 0);
    assert!(at.is_active);
    assert_eq!(at.last_heartbeat, 1_000);
    assert_eq!(at.registered_at, 1_000);
    assert_eq!(at.reputation_score(), 50);
}

#[test]
fn register_relayer_endpoint_bounds() {
    let wallet = [3u8; 32];
    let program_id = [2u8; 32];
    let (addr, _bump) = RelayerAccount::derive_address(&wallet, &program_id).unwrap();

    let empty = Processor::process_register_relayer(
        wallet,
        true,
        addr,
        0,
        Vec::new(),
        100_000_000,
        program_id,
        1_000,
    );
    assert_eq!(
        empty.unwrap_err(),
        EngineError::Privacy(PrivacyError::InvalidAccountData)
    );

    let long = Processor::process_register_relayer(
        wallet,
        true,
        addr,
        0,
        vec![b'a'; 129],
        100_000_000,
        program_id,
        1_000,
    );
    assert_eq!(
        long.unwrap_err(),
        EngineError::Privacy(PrivacyError::InvalidAccountData)
    );
}

#[test]
fn register_relayer_only_once() {
    let wallet = [3u8; 32];
    let program_id = [2u8; 32];
    let (addr, _bump) = RelayerAccount::derive_address(&wallet, &program_id).unwrap();
    let r = Processor::process_register_relayer(
        wallet,
        true,
        addr,
        1,
        b"https://relay.example".to_vec(),
        100_000_000,
        program_id,
        1_000,
    );
    assert_eq!(
        r.unwrap_err(),
        EngineError::Privacy(PrivacyError::InvalidAccountData)
    );
}

#[test]
fn fresh_relayer_scores_fifty() {
    let relayer = fresh_relayer();
    assert_eq!(relayer.reputation_score(), 50);
}

#[test]
fn three_successes_one_failure_score_seventy_five() {
    let mut relayer = fresh_relayer();
    for _ in 0..3 {
        Processor::process_report_relay(&mut relayer, true, true).unwrap();
    }
    Processor::process_report_relay(&mut relayer, true, false).unwrap();
    assert_eq!(relayer.successful_relays, 3);
    assert_eq!(relayer.failed_relays, 1);
    assert_eq!(relayer.reputation_score(), 75);
}

#[test]
fn only_failures_score_zero() {
    let mut relayer = fresh_relayer();
    for _ in 0..5 {
        Processor::process_report_relay(&mut relayer, true, false).unwrap();
    }
    assert_eq!(relayer.reputation_score(), 0);
}

#[test]
fn score_stays_within_bounds() {
    let mut relayer = fresh_relayer();
    relayer.successful_relays = 1_000_000;
    relayer.failed_relays = 0;
    assert_eq!(relayer.reputation_score(), 100);
    relayer.successful_relays = 2;
    relayer.failed_relays = 1;
    assert_eq!(relayer.reputation_score(), 66);
}

#[test]
fn report_relay_requires_signer() {
    let mut relayer = fresh_relayer();
    let r = Processor::process_report_relay(&mut relayer, false, true);
    assert_eq!(r.unwrap_err(), EngineError::MissingRequiredSignature);
    assert_eq!(relayer.successful_relays, 0);
}

#[test]
fn heartbeat_updates_timestamp() {
    let mut relayer = fresh_relayer();
    Processor::process_update_heartbeat(&mut relayer, [3u8; 32], true, 9_999).unwrap();
    assert_eq!(relayer.last_heartbeat, 9_999);
}

#[test]
fn heartbeat_rejects_other_wallet() {
    let mut relayer = fresh_relayer();
    let r = Processor::process_update_heartbeat(&mut relayer, [4u8; 32], true, 9_999);
    assert_eq!(r.unwrap_err(), EngineError::Privacy(PrivacyError::Unauthorized));
    assert_eq!(relayer.last_heartbeat, 1_000);
}

#[test]
fn online_window_is_five_minutes() {
    let relayer = fresh_relayer();
    assert!(relayer.is_online(1_000));
    assert!(relayer.is_online(1_299));
    assert!(!relayer.is_online(1_300));
    let mut inactive = fresh_relayer();
    inactive.is_active = false;
    assert!(!inactive.is_online(1_000));
}
