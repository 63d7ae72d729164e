use vstd::prelude::*;
use crate::keccak::{keccak256, spec_keccak256};
use crate::pda::{find_pda, key_image_seed, nullifier_seed, seed_key_image, seed_nullifier, seed_vault, spec_pda, vault_seed};
use crate::util::{append_word, contains_word, lemma_views_of_push, views_of, word_to_vec, byte_views};

verus! {

/// Capacity of the in-record used-nullifier and used-key-image caches.
pub const USAGE_CACHE_CAPACITY: usize = 100;

/// Mathematical state of one shielded pool.
#[verifier::ext_equal]
pub ghost struct PoolModel {
    pub authority: Seq<u8>,
    pub merkle_root: Seq<u8>,
    pub tree_depth: u8,
    pub commitment_count: int,
    pub denomination: int,
    pub tvl: int,
    pub used_nullifiers: Seq<Seq<u8>>,
    pub used_key_images: Seq<Seq<u8>>,
    pub nullifier_count: int,
    pub key_image_count: int,
    pub vault: Seq<u8>,
    pub is_initialized: bool,
}

/// One shielded pool at a fixed denomination.
#[derive(Clone, Debug)]
pub struct PoolState {
    /// Pool authority address.
    pub authority: [u8; 32],
    /// Running accumulator over the pool's commitments.
    pub merkle_root: [u8; 32],
    /// Depth of the off-ledger commitment tree.
    pub tree_depth: u8,
    /// Number of commitments accumulated so far.
    pub commitment_count: u64,
    /// Fixed deposit size this pool accepts.
    pub denomination: u64,
    /// Total value locked in the pool's vault.
    pub tvl: u64,
    /// Bounded cache of spent nullifiers.
    pub used_nullifiers: Vec<[u8; 32]>,
    /// Bounded cache of spent key images.
    pub used_key_images: Vec<[u8; 32]>,
    /// Total nullifier usages, counted past the cache bound.
    pub nullifier_count: u64,
    /// Total key-image usages, counted past the cache bound.
    pub key_image_count: u64,
    /// Address of the pool's vault cell.
    pub vault: [u8; 32],
    /// Whether the pool has been initialized.
    pub is_initialized: bool,
}

impl View for PoolState {
    type V = PoolModel;

    open spec fn view(&self) -> PoolModel {
        PoolModel {
            authority: self.authority@,
            merkle_root: self.merkle_root@,
            tree_depth: self.tree_depth,
            commitment_count: self.commitment_count as int,
            denomination: self.denomination as int,
            tvl: self.tvl as int,
            used_nullifiers: views_of(self.used_nullifiers@),
            used_key_images: views_of(self.used_key_images@),
            nullifier_count: self.nullifier_count as int,
            key_image_count: self.key_image_count as int,
            vault: self.vault@,
            is_initialized: self.is_initialized,
        }
    }
}

/// A commitment appended to a pool: the count rises by one and the root
/// absorbs the commitment by Keccak-256 chaining.
pub open spec fn spec_add_commitment(m: PoolModel, c: Seq<u8>) -> PoolModel {
    PoolModel {
        commitment_count: m.commitment_count + 1,
        merkle_root: spec_keccak256(m.merkle_root + c),
        ..m
    }
}

/// A nullifier recorded: cached while the cache has room, always counted.
pub open spec fn spec_record_nullifier(m: PoolModel, n: Seq<u8>) -> PoolModel {
    PoolModel {
        used_nullifiers: if m.used_nullifiers.len() < USAGE_CACHE_CAPACITY {
            m.used_nullifiers.push(n)
        } else {
            m.used_nullifiers
        },
        nullifier_count: m.nullifier_count + 1,
        ..m
    }
}

/// A key image recorded: cached while the cache has room, always counted.
pub open spec fn spec_record_key_image(m: PoolModel, k: Seq<u8>) -> PoolModel {
    PoolModel {
        used_key_images: if m.used_key_images.len() < USAGE_CACHE_CAPACITY {
            m.used_key_images.push(k)
        } else {
            m.used_key_images
        },
        key_image_count: m.key_image_count + 1,
        ..m
    }
}

impl PoolState {
    /// Whether `nullifier` is in the used-nullifier cache.
    pub fn is_nullifier_used(&self, nullifier: &[u8; 32]) -> (r: bool)
        ensures
            r == self@.used_nullifiers.contains(nullifier@),
    {
        contains_word(&self.used_nullifiers, nullifier)
    }

    /// Record `nullifier` as spent.
    pub fn add_nullifier(&mut self, nullifier: [u8; 32])
        requires
            old(self).nullifier_count < u64::MAX,
        ensures
            final(self)@ == spec_record_nullifier(old(self)@, nullifier@),
    {
        if self.used_nullifiers.len() < USAGE_CACHE_CAPACITY {
            self.used_nullifiers.push(nullifier);
            proof {
                lemma_views_of_push(old(self).used_nullifiers@, nullifier);
            }
        }
        self.nullifier_count = self.nullifier_count + 1;
        proof {
            assert(self@ =~= spec_record_nullifier(old(self)@, nullifier@));
        }
    }

    /// Whether `key_image` is in the used-key-image cache.
    pub fn is_key_image_used(&self, key_image: &[u8; 32]) -> (r: bool)
        ensures
            r == self@.used_key_images.contains(key_image@),
    {
        contains_word(&self.used_key_images, key_image)
    }

    /// Record `key_image` as spent.
    pub fn add_key_image(&mut self, key_image: [u8; 32])
        requires
            old(self).key_image_count < u64::MAX,
        ensures
            final(self)@ == spec_record_key_image(old(self)@, key_image@),
    {
        if self.used_key_images.len() < USAGE_CACHE_CAPACITY {
            self.used_key_images.push(key_image);
            proof {
                lemma_views_of_push(old(self).used_key_images@, key_image);
            }
        }
        self.key_image_count = self.key_image_count + 1;
        proof {
            assert(self@ =~= spec_record_key_image(old(self)@, key_image@));
        }
    }

    /// Append `commitment` to the pool's accumulator.
    pub fn add_commitment(&mut self, commitment: [u8; 32])
        requires
            old(self).commitment_count < u64::MAX,
        ensures
            final(self)@ == spec_add_commitment(old(self)@, commitment@),
    {
        self.commitment_count = self.commitment_count + 1;
        let mut input: Vec<u8> = word_to_vec(&self.merkle_root);
        append_word(&mut input, &commitment);
        let h = keccak256(input.as_slice());
        self.merkle_root = h;
        proof {
            assert(input@ =~= old(self).merkle_root@ + commitment@);
            assert(self@ =~= spec_add_commitment(old(self)@, commitment@));
        }
    }

    /// Replace the root with one computed off-ledger by the authority.
    pub fn update_root(&mut self, new_root: [u8; 32])
        ensures
            final(self)@ == (PoolModel { merkle_root: new_root@, ..old(self)@ }),
    {
        self.merkle_root = new_root;
        proof {
            assert(self@ =~= (PoolModel { merkle_root: new_root@, ..old(self)@ }));
        }
    }

    /// Address of the vault cell of the pool at `pool`.
    pub fn derive_vault_address(pool: &[u8; 32], program_id: &[u8; 32]) -> (r: Option<
        ([u8; 32], u8),
    >)
        ensures
            (match r {
                Some((a, b)) => Some((a@, b)),
                None => None,
            }) == spec_pda(seq![seed_vault(), pool@], program_id@),
    {
        let mut seeds: Vec<Vec<u8>> = Vec::new();
        seeds.push(vault_seed());
        seeds.push(word_to_vec(pool));
        proof {
            assert(byte_views(seeds@) =~= seq![seed_vault(), pool@]);
        }
        find_pda(&seeds, program_id)
    }

    /// Address of the existence record of `nullifier` under `pool`.
    pub fn derive_nullifier_pda(pool: &[u8; 32], nullifier: &[u8; 32], program_id: &[u8; 32]) -> (r:
        Option<([u8; 32], u8)>)
        ensures
            (match r {
                Some((a, b)) => Some((a@, b)),
                None => None,
            }) == spec_pda(seq![seed_nullifier(), pool@, nullifier@], program_id@),
    {
        let mut seeds: Vec<Vec<u8>> = Vec::new();
        seeds.push(nullifier_seed());
        seeds.push(word_to_vec(pool));
        seeds.push(word_to_vec(nullifier));
        proof {
            assert(byte_views(seeds@) =~= seq![seed_nullifier(), pool@, nullifier@]);
        }
        find_pda(&seeds, program_id)
    }

    /// Address of the existence record of `key_image` under `pool`.
    pub fn derive_key_image_pda(pool: &[u8; 32], key_image: &[u8; 32], program_id: &[u8; 32]) -> (r:
        Option<([u8; 32], u8)>)
        ensures
            (match r {
                Some((a, b)) => Some((a@, b)),
                None => None,
            }) == spec_pda(seq![seed_key_image(), pool@, key_image@], program_id@),
    {
        let mut seeds: Vec<Vec<u8>> = Vec::new();
        seeds.push(key_image_seed());
        seeds.push(word_to_vec(pool));
        seeds.push(word_to_vec(key_image));
        proof {
            assert(byte_views(seeds@) =~= seq![seed_key_image(), pool@, key_image@]);
        }
        find_pda(&seeds, program_id)
    }
}

/// An opaque deposit record.
#[derive(Clone, Debug)]
pub struct Commitment {
    /// The committed value.
    pub value: [u8; 32],
    /// Optional owner address, for off-ledger tracking.
    pub owner: Option<[u8; 32]>,
    /// When the commitment was recorded.
    pub timestamp: i64,
    /// Whether the commitment has been spent.
    pub is_spent: bool,
}

/// Mathematical state of one shielded asset class.
#[verifier::ext_equal]
pub ghost struct AssetModel {
    pub asset_id: Seq<u8>,
    pub issuer: Seq<u8>,
    pub name: Seq<u8>,
    pub symbol: Seq<u8>,
    pub decimals: u8,
    pub total_supply: int,
    pub circulating_supply: int,
    pub note_tree_root: Seq<u8>,
    pub note_count: int,
    pub used_nullifiers: Seq<Seq<u8>>,
    pub is_initialized: bool,
}

/// One shielded asset class: issuance and note-transfer state.
#[derive(Clone, Debug)]
pub struct AssetState {
    /// Asset identifier.
    pub asset_id: [u8; 32],
    /// Issuer address.
    pub issuer: [u8; 32],
    /// Asset name, as bytes.
    pub name: Vec<u8>,
    /// Asset symbol, as bytes.
    pub symbol: Vec<u8>,
    /// Display decimals.
    pub decimals: u8,
    /// Total supply, visible to the issuer only.
    pub total_supply: u64,
    /// Circulating supply over all notes.
    pub circulating_supply: u64,
    /// Note commitment tree root.
    pub note_tree_root: [u8; 32],
    /// Number of notes.
    pub note_count: u64,
    /// Spent nullifiers of this asset.
    pub used_nullifiers: Vec<[u8; 32]>,
    /// Whether the asset has been initialized.
    pub is_initialized: bool,
}

impl View for AssetState {
    type V = AssetModel;

    open spec fn view(&self) -> AssetModel {
        AssetModel {
            asset_id: self.asset_id@,
            issuer: self.issuer@,
            name: self.name@,
            symbol: self.symbol@,
            decimals: self.decimals,
            total_supply: self.total_supply as int,
            circulating_supply: self.circulating_supply as int,
            note_tree_root: self.note_tree_root@,
            note_count: self.note_count as int,
            used_nullifiers: views_of(self.used_nullifiers@),
            is_initialized: self.is_initialized,
        }
    }
}

/// An asset-bound value record.
#[derive(Clone, Debug)]
pub struct ShieldedNote {
    /// Note commitment.
    pub commitment: [u8; 32],
    /// Asset this note is bound to.
    pub asset_id: [u8; 32],
    /// Value, encrypted to the recipient.
    pub encrypted_value: Vec<u8>,
    /// Optional memo, encrypted to the recipient.
    pub encrypted_memo: Vec<u8>,
    /// One-time transaction public key.
    pub tx_public_key: [u8; 32],
    /// Whether the note has been spent.
    pub is_spent: bool,
}

/// Existence record of one spent nullifier.
#[derive(Clone, Debug)]
pub struct NullifierAccount {
    /// The nullifier value.
    pub nullifier: [u8; 32],
    /// Pool the nullifier belongs to.
    pub pool: [u8; 32],
    /// Signature of the transaction that spent it, when known.
    pub tx_signature: Option<[u8; 64]>,
    /// When the nullifier was spent.
    pub timestamp: i64,
    /// Bump seed of the record's derived address.
    pub bump: u8,
}

/// Existence record of one spent key image.
#[derive(Clone, Debug)]
pub struct KeyImageAccount {
    /// The key-image value.
    pub key_image: [u8; 32],
    /// Pool the key image belongs to.
    pub pool: [u8; 32],
    /// Signature of the transaction that spent it, when known.
    pub tx_signature: Option<[u8; 64]>,
    /// When the key image was spent.
    pub timestamp: i64,
    /// Bump seed of the record's derived address.
    pub bump: u8,
}

} // verus!
