use vstd::prelude::*;
use crate::error::{EngineError, PrivacyError};
use crate::pda::{seed_vault, spec_pda, vault_seed, find_pda};
use crate::registry::{CircuitType, RelayerAccount, RelayerModel, VerificationKeyAccount, VkModel, MAX_ENDPOINT_LEN, MAX_VK_SIZE, MIN_RELAYER_STAKE};
use crate::state::{spec_add_commitment, spec_record_key_image, spec_record_nullifier, AssetModel, AssetState, PoolModel, PoolState};
use crate::util::{byte_views, eq32, lemma_views_of_push, option_word_view, spec_u64_le, u64_le_bytes, views_of, word_to_vec, zero32, zero_word};
use crate::verification::{spec_verify_groth16, spec_verify_ring_signature, verify_balance_proof, verify_ring_signature, verify_transfer_proof, VerificationMode};

verus! {

/// The value movement a successful withdrawal asks of the host: debit the
/// vault and credit the recipient directly.
#[derive(Clone, Copy, Debug)]
pub struct Payout {
    /// Address to credit.
    pub recipient: [u8; 32],
    /// Value to move out of the vault.
    pub amount: u64,
}

/// Mathematical content of a stored-key decision.
#[verifier::ext_equal]
pub ghost struct StoredKeyModel {
    pub account: VkModel,
    pub create_account: bool,
}

/// What storing a verifying key asks of the host: the record to write, and
/// whether its cell must first be created.
#[derive(Clone, Debug)]
pub struct StoredKey {
    /// The record to write.
    pub account: VerificationKeyAccount,
    /// Whether the cell holding it must first be created.
    pub create_account: bool,
}

impl View for StoredKey {
    type V = StoredKeyModel;

    open spec fn view(&self) -> StoredKeyModel {
        StoredKeyModel { account: self.account@, create_account: self.create_account }
    }
}

/// A fresh pool, if the request is authorized and the vault address checks
/// out against a fresh derivation.
pub open spec fn spec_initialize_pool(
    pool_key: Seq<u8>,
    authority: Seq<u8>,
    signer: bool,
    provided_vault: Seq<u8>,
    program_id: Seq<u8>,
    tree_depth: u8,
    denomination: int,
) -> Result<PoolModel, EngineError> {
    if !signer {
        Err(EngineError::MissingRequiredSignature)
    } else {
        match spec_pda(seq![seed_vault(), pool_key], program_id) {
            None => Err(EngineError::InvalidAccountData),
            Some((addr, bump)) => if addr != provided_vault {
                Err(EngineError::InvalidAccountData)
            } else {
                Ok(
                    PoolModel {
                        authority,
                        merkle_root: zero32(),
                        tree_depth,
                        commitment_count: 0,
                        denomination,
                        tvl: 0,
                        used_nullifiers: Seq::empty(),
                        used_key_images: Seq::empty(),
                        nullifier_count: 0,
                        key_image_count: 0,
                        vault: addr,
                        is_initialized: true,
                    },
                )
            },
        }
    }
}

/// What a deposit does: value at the pool's denomination buys one appended
/// commitment; anything else is rejected and the pool is untouched.
pub open spec fn spec_deposit(m: PoolModel, commitment: Seq<u8>, amount: int) -> (Result<
    (),
    EngineError,
>, PoolModel) {
    if !m.is_initialized {
        (Err(EngineError::Privacy(PrivacyError::PoolNotInitialized)), m)
    } else if amount != m.denomination {
        (Err(EngineError::Privacy(PrivacyError::InvalidAmount)), m)
    } else {
        (Ok(()), PoolModel { tvl: m.tvl + amount, ..spec_add_commitment(m, commitment) })
    }
}

/// The public inputs a withdrawal proof is checked against: root, nullifier
/// and the change commitment (all-zero when there is none).
pub open spec fn withdraw_public_inputs(
    root: Seq<u8>,
    nullifier: Seq<u8>,
    new_commitment: Option<Seq<u8>>,
) -> Seq<Seq<u8>> {
    seq![
        root,
        nullifier,
        match new_commitment {
            Some(c) => c,
            None => zero32(),
        },
    ]
}

/// What a withdrawal does, given the proof check's verdict `vr`: an unused
/// nullifier and a passing proof spend `amount` from the vault, record the
/// nullifier and append the change commitment; any failure leaves the pool
/// untouched.
pub open spec fn spec_withdraw(
    m: PoolModel,
    nullifier: Seq<u8>,
    new_commitment: Option<Seq<u8>>,
    amount: int,
    vr: Result<bool, EngineError>,
) -> (Result<(), EngineError>, PoolModel) {
    if !m.is_initialized {
        (Err(EngineError::Privacy(PrivacyError::PoolNotInitialized)), m)
    } else if m.used_nullifiers.contains(nullifier) {
        (Err(EngineError::Privacy(PrivacyError::NullifierAlreadyUsed)), m)
    } else {
        match vr {
            Err(e) => (Err(e), m),
            Ok(b) => if !b {
                (Err(EngineError::Privacy(PrivacyError::InvalidProof)), m)
            } else if amount > m.tvl {
                (Err(EngineError::Privacy(PrivacyError::InsufficientFunds)), m)
            } else {
                let m1 = spec_record_nullifier(m, nullifier);
                let m2 = match new_commitment {
                    Some(c) => spec_add_commitment(m1, c),
                    None => m1,
                };
                (Ok(()), PoolModel { tvl: m2.tvl - amount, ..m2 })
            },
        }
    }
}

/// What a private transfer does: an unused key image and a closing ring
/// signature record the key image and append the recipient's commitment;
/// any failure leaves the pool untouched.
pub open spec fn spec_private_transfer(
    m: PoolModel,
    ring_signature: Seq<u8>,
    key_image: Seq<u8>,
    ring_members: Seq<Seq<u8>>,
    new_commitment: Seq<u8>,
) -> (Result<(), EngineError>, PoolModel) {
    if m.used_key_images.contains(key_image) {
        (Err(EngineError::Privacy(PrivacyError::KeyImageAlreadyUsed)), m)
    } else {
        match spec_verify_ring_signature(ring_signature, ring_members, key_image) {
            Err(e) => (Err(e), m),
            Ok(b) => if !b {
                (Err(EngineError::Privacy(PrivacyError::InvalidRingSignature)), m)
            } else {
                (Ok(()), spec_add_commitment(spec_record_key_image(m, key_image), new_commitment))
            },
        }
    }
}

/// The public inputs a balance proof is checked against.
pub open spec fn balance_public_inputs(min_balance: u64, commitment: Seq<u8>) -> Seq<Seq<u8>> {
    seq![spec_u64_le(min_balance), commitment]
}

/// What the stateless balance attestation reports.
pub open spec fn spec_verify_balance(
    proof_bytes: Seq<u8>,
    min_balance: u64,
    commitment: Seq<u8>,
    vk_account: Seq<u8>,
    mode: VerificationMode,
) -> Result<(), EngineError> {
    match spec_verify_groth16(
        proof_bytes,
        balance_public_inputs(min_balance, commitment),
        vk_account,
        mode,
    ) {
        Err(e) => Err(e),
        Ok(b) => if b {
            Ok(())
        } else {
            Err(EngineError::Privacy(PrivacyError::InvalidProof))
        },
    }
}

/// A fresh asset class, if the issuer signed.
pub open spec fn spec_issue_asset(
    issuer: Seq<u8>,
    signer: bool,
    name: Seq<u8>,
    symbol: Seq<u8>,
    decimals: u8,
    total_supply: int,
    asset_id: Seq<u8>,
) -> Result<AssetModel, EngineError> {
    if !signer {
        Err(EngineError::MissingRequiredSignature)
    } else {
        Ok(
            AssetModel {
                asset_id,
                issuer,
                name,
                symbol,
                decimals,
                total_supply,
                circulating_supply: 0,
                note_tree_root: zero32(),
                note_count: 0,
                used_nullifiers: Seq::empty(),
                is_initialized: true,
            },
        )
    }
}

/// The public inputs an asset-transfer proof is checked against.
pub open spec fn asset_public_inputs(
    asset_id: Seq<u8>,
    nullifier: Seq<u8>,
    new_commitment: Seq<u8>,
) -> Seq<Seq<u8>> {
    seq![asset_id, nullifier, new_commitment]
}

/// What an asset transfer does, given the proof check's verdict `vr`.
pub open spec fn spec_transfer_asset(
    m: AssetModel,
    asset_id: Seq<u8>,
    nullifier: Seq<u8>,
    vr: Result<bool, EngineError>,
) -> (Result<(), EngineError>, AssetModel) {
    if m.asset_id != asset_id {
        (Err(EngineError::Privacy(PrivacyError::InvalidAccountData)), m)
    } else if m.used_nullifiers.contains(nullifier) {
        (Err(EngineError::Privacy(PrivacyError::NullifierAlreadyUsed)), m)
    } else {
        match vr {
            Err(e) => (Err(e), m),
            Ok(b) => if !b {
                (Err(EngineError::Privacy(PrivacyError::InvalidProof)), m)
            } else {
                (
                    Ok(()),
                    AssetModel {
                        used_nullifiers: m.used_nullifiers.push(nullifier),
                        note_count: m.note_count + 1,
                        ..m
                    },
                )
            },
        }
    }
}

/// What storing a verifying key does: only the pool's authority may write,
/// the key must fit the registry's bound, and the target cell must match a
/// fresh derivation for the circuit kind.
pub open spec fn spec_store_verification_key(
    m: PoolModel,
    pool_key: Seq<u8>,
    authority: Seq<u8>,
    signer: bool,
    provided_vk_account: Seq<u8>,
    lamports: int,
    tag: u8,
    vk_data: Seq<u8>,
    program_id: Seq<u8>,
    now: int,
) -> Result<StoredKeyModel, EngineError> {
    if !signer {
        Err(EngineError::MissingRequiredSignature)
    } else if !m.is_initialized {
        Err(EngineError::Privacy(PrivacyError::PoolNotInitialized))
    } else if m.authority != authority {
        Err(EngineError::Privacy(PrivacyError::Unauthorized))
    } else if vk_data.len() == 0 || vk_data.len() > MAX_VK_SIZE {
        Err(EngineError::Privacy(PrivacyError::InvalidVerificationKey))
    } else {
        match CircuitType::spec_from_tag(tag) {
            None => Err(EngineError::Privacy(PrivacyError::InvalidAccountData)),
            Some(ct) => match spec_pda(seq![ct.spec_seed(), pool_key], program_id) {
                None => Err(EngineError::InvalidAccountData),
                Some((addr, bump)) => if addr != provided_vk_account {
                    Err(EngineError::InvalidAccountData)
                } else {
                    Ok(
                        StoredKeyModel {
                            account: VkModel {
                                circuit_type: ct,
                                pool: pool_key,
                                authority,
                                vk_data,
                                stored_at: now,
                                bump,
                            },
                            create_account: lamports == 0,
                        },
                    )
                },
            },
        }
    }
}

/// What registering a relayer does: a signed request with a sensible
/// endpoint and enough stake creates a fresh record at the derived address.
pub open spec fn spec_register_relayer(
    wallet: Seq<u8>,
    signer: bool,
    provided_relayer_account: Seq<u8>,
    lamports: int,
    endpoint: Seq<u8>,
    stake: int,
    program_id: Seq<u8>,
    now: int,
) -> Result<RelayerModel, EngineError> {
    if !signer {
        Err(EngineError::MissingRequiredSignature)
    } else if endpoint.len() == 0 || endpoint.len() > MAX_ENDPOINT_LEN {
        Err(EngineError::Privacy(PrivacyError::InvalidAccountData))
    } else if stake < MIN_RELAYER_STAKE {
        Err(EngineError::Privacy(PrivacyError::InvalidAmount))
    } else {
        match spec_pda(seq![crate::pda::seed_relayer(), wallet], program_id) {
            None => Err(EngineError::InvalidAccountData),
            Some((addr, bump)) => if addr != provided_relayer_account {
                Err(EngineError::InvalidAccountData)
            } else if lamports > 0 {
                Err(EngineError::Privacy(PrivacyError::InvalidAccountData))
            } else {
                Ok(
                    RelayerModel {
                        relayer: wallet,
                        stake,
                        successful_relays: 0,
                        failed_relays: 0,
                        last_heartbeat: now,
                        is_active: true,
                        registered_at: now,
                        endpoint,
                        bump,
                    },
                )
            },
        }
    }
}

/// What a heartbeat does: the relayer itself, signed, refreshes its
/// liveness timestamp.
pub open spec fn spec_update_heartbeat(
    m: RelayerModel,
    wallet: Seq<u8>,
    signer: bool,
    now: int,
) -> (Result<(), EngineError>, RelayerModel) {
    if !signer {
        (Err(EngineError::MissingRequiredSignature), m)
    } else if m.relayer != wallet {
        (Err(EngineError::Privacy(PrivacyError::Unauthorized)), m)
    } else {
        (Ok(()), RelayerModel { last_heartbeat: now, ..m })
    }
}

/// What a relay report does: one counter rises by one.
pub open spec fn spec_report_relay(m: RelayerModel, signer: bool, success: bool) -> (Result<
    (),
    EngineError,
>, RelayerModel) {
    if !signer {
        (Err(EngineError::MissingRequiredSignature), m)
    } else if success {
        (Ok(()), RelayerModel { successful_relays: m.successful_relays + 1, ..m })
    } else {
        (Ok(()), RelayerModel { failed_relays: m.failed_relays + 1, ..m })
    }
}

/// The engine's request handlers, over decoded requests and plain state.
pub struct Processor;

impl Processor {
    /// Initialize a pool: derive and check the vault address, then write a
    /// fresh ledger. The host creates the vault cell on success.
    pub fn process_initialize_pool(
        pool_key: [u8; 32],
        authority: [u8; 32],
        authority_is_signer: bool,
        provided_vault: [u8; 32],
        program_id: [u8; 32],
        tree_depth: u8,
        denomination: u64,
    ) -> (r: Result<PoolState, EngineError>)
        ensures
            ({
                let s = spec_initialize_pool(
                    pool_key@,
                    authority@,
                    authority_is_signer,
                    provided_vault@,
                    program_id@,
                    tree_depth,
                    denomination as int,
                );
                match r {
                    Ok(p) => s == Ok::<PoolModel, EngineError>(p@),
                    Err(e) => s == Err::<PoolModel, EngineError>(e),
                }
            }),
    {
        if !authority_is_signer {
            return Err(EngineError::MissingRequiredSignature);
        }
        let mut seeds: Vec<Vec<u8>> = Vec::new();
        seeds.push(vault_seed());
        seeds.push(word_to_vec(&pool_key));
        proof {
            assert(byte_views(seeds@) =~= seq![seed_vault(), pool_key@]);
        }
        let derived = find_pda(&seeds, &program_id);
        let (vault_addr, _bump) = match derived {
            Some(ab) => ab,
            None => {
                return Err(EngineError::InvalidAccountData);
            },
        };
        if !eq32(&vault_addr, &provided_vault) {
            return Err(EngineError::InvalidAccountData);
        }
        let p = PoolState {
            authority,
            merkle_root: zero_word(),
            tree_depth,
            commitment_count: 0,
            denomination,
            tvl: 0,
            used_nullifiers: Vec::new(),
            used_key_images: Vec::new(),
            nullifier_count: 0,
            key_image_count: 0,
            vault: vault_addr,
            is_initialized: true,
        };
        proof {
            let s = spec_initialize_pool(
                pool_key@,
                authority@,
                authority_is_signer,
                provided_vault@,
                program_id@,
                tree_depth,
                denomination as int,
            );
            assert(views_of(p.used_nullifiers@) =~= Seq::<Seq<u8>>::empty());
            assert(views_of(p.used_key_images@) =~= Seq::<Seq<u8>>::empty());
            assert(s matches Ok(pm) && p@ =~= pm);
        }
        Ok(p)
    }

    /// Deposit: value at the pool's denomination appends `commitment` and
    /// raises the locked total. The host moves the value to the vault.
    pub fn process_deposit(pool: &mut PoolState, commitment: [u8; 32], amount: u64) -> (r: Result<
        (),
        EngineError,
    >)
        requires
            old(pool).is_initialized && amount == old(pool).denomination ==> old(pool).tvl + amount
                <= u64::MAX && old(pool).commitment_count < u64::MAX,
        ensures
            r == spec_deposit(old(pool)@, commitment@, amount as int).0,
            final(pool)@ == spec_deposit(old(pool)@, commitment@, amount as int).1,
    {
        if !pool.is_initialized {
            return Err(EngineError::Privacy(PrivacyError::PoolNotInitialized));
        }
        if amount != pool.denomination {
            return Err(EngineError::Privacy(PrivacyError::InvalidAmount));
        }
        pool.add_commitment(commitment);
        pool.tvl = pool.tvl + amount;
        proof {
            assert(pool@ =~= spec_deposit(old(pool)@, commitment@, amount as int).1);
        }
        Ok(())
    }

    /// Withdraw: an unused nullifier and a passing proof move `amount` to
    /// the recipient; the nullifier is recorded and any change commitment
    /// appended. The host performs the returned payout.
    pub fn process_withdraw(
        pool: &mut PoolState,
        proof_bytes: &[u8],
        root: [u8; 32],
        nullifier: [u8; 32],
        new_commitment: Option<[u8; 32]>,
        recipient: [u8; 32],
        amount: u64,
        vk_account_data: &[u8],
        mode: VerificationMode,
    ) -> (r: Result<Payout, EngineError>)
        requires
            old(pool).nullifier_count < u64::MAX,
            new_commitment matches Some(_) ==> old(pool).commitment_count < u64::MAX,
        ensures
            ({
                let vr = spec_verify_groth16(
                    proof_bytes@,
                    withdraw_public_inputs(root@, nullifier@, option_word_view(new_commitment)),
                    vk_account_data@,
                    mode,
                );
                let step = spec_withdraw(
                    old(pool)@,
                    nullifier@,
                    option_word_view(new_commitment),
                    amount as int,
                    vr,
                );
                final(pool)@ == step.1 && (match r {
                    Ok(p) => step.0 == Ok::<(), EngineError>(()) && p.recipient == recipient
                        && p.amount == amount,
                    Err(e) => step.0 == Err::<(), EngineError>(e),
                })
            }),
    {
        if !pool.is_initialized {
            return Err(EngineError::Privacy(PrivacyError::PoolNotInitialized));
        }
        if pool.is_nullifier_used(&nullifier) {
            return Err(EngineError::Privacy(PrivacyError::NullifierAlreadyUsed));
        }
        let mut public_inputs: Vec<Vec<u8>> = Vec::new();
        public_inputs.push(word_to_vec(&root));
        public_inputs.push(word_to_vec(&nullifier));
        match new_commitment {
            Some(c) => public_inputs.push(word_to_vec(&c)),
            None => public_inputs.push(word_to_vec(&zero_word())),
        }
        proof {
            assert(byte_views(public_inputs@) =~= withdraw_public_inputs(
                root@,
                nullifier@,
                option_word_view(new_commitment),
            ));
        }
        let vr = verify_transfer_proof(proof_bytes, public_inputs.as_slice(), vk_account_data, mode);
        let verified = match vr {
            Ok(b) => b,
            Err(e) => {
                return Err(e);
            },
        };
        if !verified {
            return Err(EngineError::Privacy(PrivacyError::InvalidProof));
        }
        if amount > pool.tvl {
            return Err(EngineError::Privacy(PrivacyError::InsufficientFunds));
        }
        pool.add_nullifier(nullifier);
        match new_commitment {
            Some(c) => pool.add_commitment(c),
            None => {},
        }
        pool.tvl = pool.tvl - amount;
        proof {
            let vr_spec = spec_verify_groth16(
                proof_bytes@,
                withdraw_public_inputs(root@, nullifier@, option_word_view(new_commitment)),
                vk_account_data@,
                mode,
            );
            let step = spec_withdraw(
                old(pool)@,
                nullifier@,
                option_word_view(new_commitment),
                amount as int,
                vr_spec,
            );
            assert(pool@ =~= step.1);
        }
        Ok(Payout { recipient, amount })
    }

    /// Private transfer: an unused key image and a closing ring signature
    /// record the key image and append the recipient's commitment.
    pub fn process_private_transfer(
        pool: &mut PoolState,
        ring_signature: &[u8],
        key_image: [u8; 32],
        ring_members: &[[u8; 32]],
        new_commitment: [u8; 32],
        _encrypted_amount: &[u8],
    ) -> (r: Result<(), EngineError>)
        requires
            old(pool).key_image_count < u64::MAX,
            old(pool).commitment_count < u64::MAX,
        ensures
            ({
                let step = spec_private_transfer(
                    old(pool)@,
                    ring_signature@,
                    key_image@,
                    views_of(ring_members@),
                    new_commitment@,
                );
                final(pool)@ == step.1 && r == step.0
            }),
    {
        if pool.is_key_image_used(&key_image) {
            return Err(EngineError::Privacy(PrivacyError::KeyImageAlreadyUsed));
        }
        let vr = verify_ring_signature(ring_signature, &key_image, ring_members);
        let verified = match vr {
            Ok(b) => b,
            Err(e) => {
                return Err(e);
            },
        };
        if !verified {
            return Err(EngineError::Privacy(PrivacyError::InvalidRingSignature));
        }
        pool.add_key_image(key_image);
        pool.add_commitment(new_commitment);
        proof {
            let step = spec_private_transfer(
                old(pool)@,
                ring_signature@,
                key_image@,
                views_of(ring_members@),
                new_commitment@,
            );
            assert(pool@ =~= step.1);
        }
        Ok(())
    }

    /// Stateless balance attestation: check a proof of at least
    /// `min_balance` behind `balance_commitment`; no ledger state changes.
    pub fn process_verify_balance(
        proof_bytes: &[u8],
        min_balance: u64,
        balance_commitment: [u8; 32],
        vk_account_data: &[u8],
        mode: VerificationMode,
    ) -> (r: Result<(), EngineError>)
        ensures
            r == spec_verify_balance(
                proof_bytes@,
                min_balance,
                balance_commitment@,
                vk_account_data@,
                mode,
            ),
    {
        let mut public_inputs: Vec<Vec<u8>> = Vec::new();
        public_inputs.push(u64_le_bytes(min_balance));
        public_inputs.push(word_to_vec(&balance_commitment));
        proof {
            assert(byte_views(public_inputs@) =~= balance_public_inputs(
                min_balance,
                balance_commitment@,
            ));
        }
        let vr = verify_balance_proof(proof_bytes, public_inputs.as_slice(), vk_account_data, mode);
        match vr {
            Err(e) => Err(e),
            Ok(b) => if b {
                Ok(())
            } else {
                Err(EngineError::Privacy(PrivacyError::InvalidProof))
            },
        }
    }

    /// Issue an asset: a signed issuer writes a fresh asset ledger with
    /// nothing in circulation yet.
    pub fn process_issue_asset(
        issuer: [u8; 32],
        issuer_is_signer: bool,
        name: Vec<u8>,
        symbol: Vec<u8>,
        decimals: u8,
        total_supply: u64,
        asset_id: [u8; 32],
    ) -> (r: Result<AssetState, EngineError>)
        ensures
            ({
                let s = spec_issue_asset(
                    issuer@,
                    issuer_is_signer,
                    name@,
                    symbol@,
                    decimals,
                    total_supply as int,
                    asset_id@,
                );
                match r {
                    Ok(a) => s == Ok::<AssetModel, EngineError>(a@),
                    Err(e) => s == Err::<AssetModel, EngineError>(e),
                }
            }),
    {
        if !issuer_is_signer {
            return Err(EngineError::MissingRequiredSignature);
        }
        let a = AssetState {
            asset_id,
            issuer,
            name,
            symbol,
            decimals,
            total_supply,
            circulating_supply: 0,
            note_tree_root: zero_word(),
            note_count: 0,
            used_nullifiers: Vec::new(),
            is_initialized: true,
        };
        proof {
            assert(views_of(a.used_nullifiers@) =~= Seq::<Seq<u8>>::empty());
            let s = spec_issue_asset(
                issuer@,
                issuer_is_signer,
                a.name@,
                a.symbol@,
                decimals,
                total_supply as int,
                asset_id@,
            );
            assert(s matches Ok(am) && a@ =~= am);
        }
        Ok(a)
    }

    /// Asset transfer: the right asset, an unused nullifier and a passing
    /// proof record the nullifier and count one more note.
    pub fn process_transfer_asset(
        asset: &mut AssetState,
        proof_bytes: &[u8],
        asset_id: [u8; 32],
        nullifier: [u8; 32],
        new_commitment: [u8; 32],
        _encrypted_data: &[u8],
        vk_account_data: &[u8],
        mode: VerificationMode,
    ) -> (r: Result<(), EngineError>)
        requires
            old(asset).note_count < u64::MAX,
        ensures
            ({
                let vr = spec_verify_groth16(
                    proof_bytes@,
                    asset_public_inputs(asset_id@, nullifier@, new_commitment@),
                    vk_account_data@,
                    mode,
                );
                let step = spec_transfer_asset(old(asset)@, asset_id@, nullifier@, vr);
                final(asset)@ == step.1 && r == step.0
            }),
    {
        if !eq32(&asset.asset_id, &asset_id) {
            return Err(EngineError::Privacy(PrivacyError::InvalidAccountData));
        }
        if crate::util::contains_word(&asset.used_nullifiers, &nullifier) {
            return Err(EngineError::Privacy(PrivacyError::NullifierAlreadyUsed));
        }
        let mut public_inputs: Vec<Vec<u8>> = Vec::new();
        public_inputs.push(word_to_vec(&asset_id));
        public_inputs.push(word_to_vec(&nullifier));
        public_inputs.push(word_to_vec(&new_commitment));
        proof {
            assert(byte_views(public_inputs@) =~= asset_public_inputs(
                asset_id@,
                nullifier@,
                new_commitment@,
            ));
        }
        let vr = verify_transfer_proof(proof_bytes, public_inputs.as_slice(), vk_account_data, mode);
        let verified = match vr {
            Ok(b) => b,
            Err(e) => {
                return Err(e);
            },
        };
        if !verified {
            return Err(EngineError::Privacy(PrivacyError::InvalidProof));
        }
        asset.used_nullifiers.push(nullifier);
        proof {
            lemma_views_of_push(old(asset).used_nullifiers@, nullifier);
        }
        asset.note_count = asset.note_count + 1;
        proof {
            let vr_spec = spec_verify_groth16(
                proof_bytes@,
                asset_public_inputs(asset_id@, nullifier@, new_commitment@),
                vk_account_data@,
                mode,
            );
            let step = spec_transfer_asset(old(asset)@, asset_id@, nullifier@, vr_spec);
            assert(asset@ =~= step.1);
        }
        Ok(())
    }

    /// Store a verifying key: only the pool's authority, within the size
    /// bound, at the freshly derived cell for the circuit kind. The host
    /// creates the cell first when the decision says so.
    pub fn process_store_verification_key(
        pool: &PoolState,
        pool_key: [u8; 32],
        authority: [u8; 32],
        authority_is_signer: bool,
        provided_vk_account: [u8; 32],
        vk_account_lamports: u64,
        circuit_type: u8,
        vk_data: Vec<u8>,
        program_id: [u8; 32],
        now: i64,
    ) -> (r: Result<StoredKey, EngineError>)
        ensures
            ({
                let s = spec_store_verification_key(
                    pool@,
                    pool_key@,
                    authority@,
                    authority_is_signer,
                    provided_vk_account@,
                    vk_account_lamports as int,
                    circuit_type,
                    vk_data@,
                    program_id@,
                    now as int,
                );
                match r {
                    Ok(k) => s == Ok::<StoredKeyModel, EngineError>(k@),
                    Err(e) => s == Err::<StoredKeyModel, EngineError>(e),
                }
            }),
    {
        if !authority_is_signer {
            return Err(EngineError::MissingRequiredSignature);
        }
        if !pool.is_initialized {
            return Err(EngineError::Privacy(PrivacyError::PoolNotInitialized));
        }
        if !eq32(&pool.authority, &authority) {
            return Err(EngineError::Privacy(PrivacyError::Unauthorized));
        }
        if vk_data.len() == 0 || vk_data.len() > MAX_VK_SIZE {
            return Err(EngineError::Privacy(PrivacyError::InvalidVerificationKey));
        }
        let ct = match CircuitType::from_tag(circuit_type) {
            Some(c) => c,
            None => {
                return Err(EngineError::Privacy(PrivacyError::InvalidAccountData));
            },
        };
        let derived = VerificationKeyAccount::derive_address(&pool_key, ct, &program_id);
        let (addr, bump) = match derived {
            Some(ab) => ab,
            None => {
                return Err(EngineError::InvalidAccountData);
            },
        };
        if !eq32(&addr, &provided_vk_account) {
            return Err(EngineError::InvalidAccountData);
        }
        let create_account = vk_account_lamports == 0;
        let k = StoredKey {
            account: VerificationKeyAccount {
                circuit_type: ct,
                pool: pool_key,
                authority,
                vk_data,
                stored_at: now,
                bump,
            },
            create_account,
        };
        proof {
            let s = spec_store_verification_key(
                pool@,
                pool_key@,
                authority@,
                authority_is_signer,
                provided_vk_account@,
                vk_account_lamports as int,
                circuit_type,
                k.account.vk_data@,
                program_id@,
                now as int,
            );
            assert(s matches Ok(km) && k@ =~= km);
        }
        Ok(k)
    }

    /// Register a relayer: signed, with a bounded endpoint and enough
    /// stake, at the freshly derived record address, once. The host creates
    /// and funds the record.
    pub fn process_register_relayer(
        wallet: [u8; 32],
        wallet_is_signer: bool,
        provided_relayer_account: [u8; 32],
        relayer_account_lamports: u64,
        endpoint: Vec<u8>,
        stake: u64,
        program_id: [u8; 32],
        now: i64,
    ) -> (r: Result<RelayerAccount, EngineError>)
        ensures
            ({
                let s = spec_register_relayer(
                    wallet@,
                    wallet_is_signer,
                    provided_relayer_account@,
                    relayer_account_lamports as int,
                    endpoint@,
                    stake as int,
                    program_id@,
                    now as int,
                );
                match r {
                    Ok(a) => s == Ok::<RelayerModel, EngineError>(a@),
                    Err(e) => s == Err::<RelayerModel, EngineError>(e),
                }
            }),
    {
        if !wallet_is_signer {
            return Err(EngineError::MissingRequiredSignature);
        }
        if endpoint.len() == 0 || endpoint.len() > MAX_ENDPOINT_LEN {
            return Err(EngineError::Privacy(PrivacyError::InvalidAccountData));
        }
        if stake < MIN_RELAYER_STAKE {
            return Err(EngineError::Privacy(PrivacyError::InvalidAmount));
        }
        let derived = RelayerAccount::derive_address(&wallet, &program_id);
        let (addr, bump) = match derived {
            Some(ab) => ab,
            None => {
                return Err(EngineError::InvalidAccountData);
            },
        };
        if !eq32(&addr, &provided_relayer_account) {
            return Err(EngineError::InvalidAccountData);
        }
        if relayer_account_lamports > 0 {
            return Err(EngineError::Privacy(PrivacyError::InvalidAccountData));
        }
        let a = RelayerAccount {
            relayer: wallet,
            stake,
            successful_relays: 0,
            failed_relays: 0,
            last_heartbeat: now,
            is_active: true,
            registered_at: now,
            endpoint,
            bump,
        };
        proof {
            let s = spec_register_relayer(
                wallet@,
                wallet_is_signer,
                provided_relayer_account@,
                relayer_account_lamports as int,
                a.endpoint@,
                stake as int,
                program_id@,
                now as int,
            );
            assert(s matches Ok(am) && a@ =~= am);
        }
        Ok(a)
    }

    /// Heartbeat: the relayer itself refreshes its liveness timestamp.
    pub fn process_update_heartbeat(
        relayer: &mut RelayerAccount,
        wallet: [u8; 32],
        wallet_is_signer: bool,
        now: i64,
    ) -> (r: Result<(), EngineError>)
        ensures
            ({
                let step = spec_update_heartbeat(old(relayer)@, wallet@, wallet_is_signer, now as int);
                final(relayer)@ == step.1 && r == step.0
            }),
    {
        if !wallet_is_signer {
            return Err(EngineError::MissingRequiredSignature);
        }
        if !eq32(&relayer.relayer, &wallet) {
            return Err(EngineError::Privacy(PrivacyError::Unauthorized));
        }
        relayer.last_heartbeat = now;
        proof {
            assert(relayer@ =~= spec_update_heartbeat(old(relayer)@, wallet@, wallet_is_signer, now as int).1);
        }
        Ok(())
    }

    /// Relay report: a signed reporter moves one of the two counters.
    pub fn process_report_relay(
        relayer: &mut RelayerAccount,
        authority_is_signer: bool,
        success: bool,
    ) -> (r: Result<(), EngineError>)
        requires
            success ==> old(relayer).successful_relays < u64::MAX,
            !success ==> old(relayer).failed_relays < u64::MAX,
        ensures
            ({
                let step = spec_report_relay(old(relayer)@, authority_is_signer, success);
                final(relayer)@ == step.1 && r == step.0
            }),
    {
        if !authority_is_signer {
            return Err(EngineError::MissingRequiredSignature);
        }
        if success {
            relayer.successful_relays = relayer.successful_relays + 1;
        } else {
            relayer.failed_relays = relayer.failed_relays + 1;
        }
        proof {
            assert(relayer@ =~= spec_report_relay(old(relayer)@, authority_is_signer, success).1);
        }
        Ok(())
    }
}

} // verus!
