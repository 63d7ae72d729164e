use vstd::prelude::*;
use crate::error::{EngineError, PrivacyError};
use crate::processor::{spec_deposit, spec_issue_asset, spec_private_transfer, spec_transfer_asset, spec_withdraw};
use crate::registry::spec_reputation;
use crate::state::{spec_add_commitment, AssetModel, PoolModel, USAGE_CACHE_CAPACITY};

verus! {

/// Well-formedness of a pool record: both usage caches within capacity.
pub open spec fn pool_wf(m: PoolModel) -> bool {
    &&& m.used_nullifiers.len() <= USAGE_CACHE_CAPACITY
    &&& m.used_key_images.len() <= USAGE_CACHE_CAPACITY
}

/// A sequence stays duplicate-free when a value it does not hold is pushed.
proof fn lemma_push_keeps_no_duplicates<T>(s: Seq<T>, x: T)
    requires
        s.no_duplicates(),
        !s.contains(x),
    ensures
        s.push(x).no_duplicates(),
{
    let t = s.push(x);
    assert forall|i: int, j: int|
        0 <= i < t.len() && 0 <= j < t.len() && i != j implies t[i] != t[j] by {
        if i < s.len() && j < s.len() {
            assert(t[i] == s[i] && t[j] == s[j]);
        } else if i == s.len() {
            assert(t[i] == x && t[j] == s[j]);
            if t[j] == x {
                assert(s.contains(x));
            }
        } else {
            assert(t[j] == x && t[i] == s[i]);
            if t[i] == x {
                assert(s.contains(x));
            }
        }
    }
}

/// Law: a deposit keeps the pool well formed and never lowers the
/// commitment count.
pub proof fn lemma_deposit_preserves_wf(m: PoolModel, commitment: Seq<u8>, amount: int)
    requires
        pool_wf(m),
    ensures
        pool_wf(spec_deposit(m, commitment, amount).1),
        spec_deposit(m, commitment, amount).1.commitment_count >= m.commitment_count,
{
}

/// Law: a withdrawal keeps the pool well formed, never lowers the
/// commitment count, and keeps the nullifier cache duplicate-free.
pub proof fn lemma_withdraw_preserves_wf(
    m: PoolModel,
    nullifier: Seq<u8>,
    new_commitment: Option<Seq<u8>>,
    amount: int,
    vr: Result<bool, EngineError>,
)
    requires
        pool_wf(m),
        m.used_nullifiers.no_duplicates(),
    ensures
        pool_wf(spec_withdraw(m, nullifier, new_commitment, amount, vr).1),
        spec_withdraw(m, nullifier, new_commitment, amount, vr).1.commitment_count
            >= m.commitment_count,
        spec_withdraw(m, nullifier, new_commitment, amount, vr).1.used_nullifiers.no_duplicates(),
{
    let stepped = spec_withdraw(m, nullifier, new_commitment, amount, vr).1;
    if stepped.used_nullifiers != m.used_nullifiers {
        lemma_push_keeps_no_duplicates(m.used_nullifiers, nullifier);
    }
}

/// Law: a private transfer keeps the pool well formed, never lowers the
/// commitment count, and keeps the key-image cache duplicate-free.
pub proof fn lemma_private_transfer_preserves_wf(
    m: PoolModel,
    ring_signature: Seq<u8>,
    key_image: Seq<u8>,
    ring_members: Seq<Seq<u8>>,
    new_commitment: Seq<u8>,
)
    requires
        pool_wf(m),
        m.used_key_images.no_duplicates(),
    ensures
        pool_wf(spec_private_transfer(m, ring_signature, key_image, ring_members, new_commitment).1),
        spec_private_transfer(m, ring_signature, key_image, ring_members, new_commitment).1
            .commitment_count >= m.commitment_count,
        spec_private_transfer(m, ring_signature, key_image, ring_members, new_commitment).1
            .used_key_images.no_duplicates(),
{
    let stepped = spec_private_transfer(m, ring_signature, key_image, ring_members, new_commitment).1;
    if stepped.used_key_images != m.used_key_images {
        lemma_push_keeps_no_duplicates(m.used_key_images, key_image);
    }
}

/// Law: an asset transfer keeps the asset's nullifier list duplicate-free
/// and keeps the circulating supply within the total supply.
pub proof fn lemma_transfer_asset_preserves_wf(
    m: AssetModel,
    asset_id: Seq<u8>,
    nullifier: Seq<u8>,
    vr: Result<bool, EngineError>,
)
    requires
        m.used_nullifiers.no_duplicates(),
        m.circulating_supply <= m.total_supply,
    ensures
        spec_transfer_asset(m, asset_id, nullifier, vr).1.used_nullifiers.no_duplicates(),
        spec_transfer_asset(m, asset_id, nullifier, vr).1.circulating_supply
            <= spec_transfer_asset(m, asset_id, nullifier, vr).1.total_supply,
{
    let stepped = spec_transfer_asset(m, asset_id, nullifier, vr).1;
    if stepped.used_nullifiers != m.used_nullifiers {
        lemma_push_keeps_no_duplicates(m.used_nullifiers, nullifier);
    }
}

/// Law: a freshly issued asset has nothing in circulation, so its
/// circulating supply is within its total supply.
pub proof fn lemma_issue_asset_supply(
    issuer: Seq<u8>,
    signer: bool,
    name: Seq<u8>,
    symbol: Seq<u8>,
    decimals: u8,
    total_supply: int,
    asset_id: Seq<u8>,
)
    requires
        total_supply >= 0,
    ensures
        (match spec_issue_asset(issuer, signer, name, symbol, decimals, total_supply, asset_id) {
            Ok(a) => a.circulating_supply == 0 && a.circulating_supply <= a.total_supply
                && a.used_nullifiers.no_duplicates(),
            Err(_) => true,
        }),
{
}

/// Law: once a withdrawal has recorded a nullifier (while the cache had
/// room), any later withdrawal presenting the same nullifier on that pool
/// fails with `NullifierAlreadyUsed` and leaves the pool untouched, whatever
/// its proof check reports.
pub proof fn lemma_withdraw_nullifier_exactly_once(
    m: PoolModel,
    nullifier: Seq<u8>,
    nc1: Option<Seq<u8>>,
    amount1: int,
    vr1: Result<bool, EngineError>,
    nc2: Option<Seq<u8>>,
    amount2: int,
    vr2: Result<bool, EngineError>,
)
    requires
        m.used_nullifiers.len() < USAGE_CACHE_CAPACITY,
        spec_withdraw(m, nullifier, nc1, amount1, vr1).0 == Ok::<(), EngineError>(()),
    ensures
        spec_withdraw(
            spec_withdraw(m, nullifier, nc1, amount1, vr1).1,
            nullifier,
            nc2,
            amount2,
            vr2,
        ).0 == Err::<(), EngineError>(EngineError::Privacy(PrivacyError::NullifierAlreadyUsed)),
        spec_withdraw(
            spec_withdraw(m, nullifier, nc1, amount1, vr1).1,
            nullifier,
            nc2,
            amount2,
            vr2,
        ).1 == spec_withdraw(m, nullifier, nc1, amount1, vr1).1,
{
    let mid = spec_withdraw(m, nullifier, nc1, amount1, vr1).1;
    assert(mid.is_initialized);
    assert(mid.used_nullifiers == m.used_nullifiers.push(nullifier));
    assert(mid.used_nullifiers[m.used_nullifiers.len() as int] == nullifier);
    assert(mid.used_nullifiers.contains(nullifier));
}

/// Law: once an asset transfer has recorded a nullifier, any later transfer
/// presenting the same nullifier on that asset fails with
/// `NullifierAlreadyUsed` and leaves the asset untouched. The asset's
/// nullifier list is unbounded, so no cache condition is needed.
pub proof fn lemma_transfer_asset_nullifier_exactly_once(
    m: AssetModel,
    asset_id: Seq<u8>,
    nullifier: Seq<u8>,
    vr1: Result<bool, EngineError>,
    vr2: Result<bool, EngineError>,
)
    requires
        spec_transfer_asset(m, asset_id, nullifier, vr1).0 == Ok::<(), EngineError>(()),
    ensures
        spec_transfer_asset(
            spec_transfer_asset(m, asset_id, nullifier, vr1).1,
            asset_id,
            nullifier,
            vr2,
        ).0 == Err::<(), EngineError>(EngineError::Privacy(PrivacyError::NullifierAlreadyUsed)),
        spec_transfer_asset(
            spec_transfer_asset(m, asset_id, nullifier, vr1).1,
            asset_id,
            nullifier,
            vr2,
        ).1 == spec_transfer_asset(m, asset_id, nullifier, vr1).1,
{
    let mid = spec_transfer_asset(m, asset_id, nullifier, vr1).1;
    assert(mid.used_nullifiers[m.used_nullifiers.len() as int] == nullifier);
    assert(mid.used_nullifiers.contains(nullifier));
}

/// Law: once a private transfer has recorded a key image (while the cache
/// had room), any later private transfer presenting the same key image on
/// that pool fails with `KeyImageAlreadyUsed` and leaves the pool
/// untouched, whatever ring and signature it carries.
pub proof fn lemma_key_image_exactly_once(
    m: PoolModel,
    sig1: Seq<u8>,
    key_image: Seq<u8>,
    members1: Seq<Seq<u8>>,
    nc1: Seq<u8>,
    sig2: Seq<u8>,
    members2: Seq<Seq<u8>>,
    nc2: Seq<u8>,
)
    requires
        m.used_key_images.len() < USAGE_CACHE_CAPACITY,
        spec_private_transfer(m, sig1, key_image, members1, nc1).0 == Ok::<(), EngineError>(()),
    ensures
        spec_private_transfer(
            spec_private_transfer(m, sig1, key_image, members1, nc1).1,
            sig2,
            key_image,
            members2,
            nc2,
        ).0 == Err::<(), EngineError>(EngineError::Privacy(PrivacyError::KeyImageAlreadyUsed)),
        spec_private_transfer(
            spec_private_transfer(m, sig1, key_image, members1, nc1).1,
            sig2,
            key_image,
            members2,
            nc2,
        ).1 == spec_private_transfer(m, sig1, key_image, members1, nc1).1,
{
    let mid = spec_private_transfer(m, sig1, key_image, members1, nc1).1;
    assert(mid.used_key_images == m.used_key_images.push(key_image));
    assert(mid.used_key_images[m.used_key_images.len() as int] == key_image);
    assert(mid.used_key_images.contains(key_image));
}

/// Law: on an initialized pool, a deposit succeeds exactly when its amount
/// is the pool's denomination; a wrong amount fails with `InvalidAmount`
/// and changes nothing.
pub proof fn lemma_deposit_exact_amount(m: PoolModel, commitment: Seq<u8>, amount: int)
    requires
        m.is_initialized,
    ensures
        (spec_deposit(m, commitment, amount).0 == Ok::<(), EngineError>(())) <==> amount
            == m.denomination,
        amount != m.denomination ==> spec_deposit(m, commitment, amount) == (
            Err::<(), EngineError>(EngineError::Privacy(PrivacyError::InvalidAmount)),
            m,
        ),
{
}

/// The pool after a batch of commitments is appended in order.
pub open spec fn spec_append_commitments(m: PoolModel, cs: Seq<Seq<u8>>) -> PoolModel
    decreases cs.len(),
{
    if cs.len() == 0 {
        m
    } else {
        spec_add_commitment(spec_append_commitments(m, cs.drop_last()), cs.last())
    }
}

/// Law: appending a batch of commitments raises the commitment count by
/// exactly the batch's size.
pub proof fn lemma_append_commitments_count(m: PoolModel, cs: Seq<Seq<u8>>)
    ensures
        spec_append_commitments(m, cs).commitment_count == m.commitment_count + cs.len(),
    decreases cs.len(),
{
    if cs.len() == 0 {
    } else {
        lemma_append_commitments_count(m, cs.drop_last());
    }
}

/// Law: the reputation formula never leaves 0..=100, whatever the history.
pub proof fn lemma_reputation_bounds(successes: int, failures: int)
    requires
        successes >= 0,
        failures >= 0,
    ensures
        0 <= spec_reputation(successes, failures) <= 100,
{
    if successes == 0 && failures == 0 {
    } else {
        assert((successes * 100) / (successes + failures) >= 0) by (nonlinear_arith)
            requires
                successes >= 0,
                failures >= 0,
                successes + failures > 0,
        ;
    }
}

} // verus!
