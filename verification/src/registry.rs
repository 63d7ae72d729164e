use vstd::prelude::*;
use crate::pda::{find_pda, relayer_seed, seed_relayer, seed_vk_balance, seed_vk_ring_sig, seed_vk_transfer, spec_pda, vk_balance_seed, vk_ring_sig_seed, vk_transfer_seed};
use crate::util::{byte_views, word_to_vec};

verus! {

/// Largest serialized verifying key the registry accepts, in bytes.
pub const MAX_VK_SIZE: usize = 2048;

/// Longest relayer endpoint the registry accepts, in bytes.
pub const MAX_ENDPOINT_LEN: usize = 128;

/// Smallest stake a relayer may register with.
pub const MIN_RELAYER_STAKE: u64 = 100_000_000;

/// A relayer counts as online while its last heartbeat is this recent, in
/// seconds.
pub const HEARTBEAT_WINDOW: i64 = 300;

/// The circuit kinds the registry stores verifying keys for.
#[derive(Clone, Copy, Debug, PartialEq, Eq, Structural)]
pub enum CircuitType {
    Transfer,
    Balance,
    RingSignature,
}

impl CircuitType {
    /// The circuit kind a wire tag stands for, if any.
    pub open spec fn spec_from_tag(tag: u8) -> Option<CircuitType> {
        if tag == 0 {
            Some(CircuitType::Transfer)
        } else if tag == 1 {
            Some(CircuitType::Balance)
        } else if tag == 2 {
            Some(CircuitType::RingSignature)
        } else {
            None
        }
    }

    /// Parse a wire tag.
    pub fn from_tag(tag: u8) -> (r: Option<CircuitType>)
        ensures
            r == CircuitType::spec_from_tag(tag),
    {
        if tag == 0 {
            Some(CircuitType::Transfer)
        } else if tag == 1 {
            Some(CircuitType::Balance)
        } else if tag == 2 {
            Some(CircuitType::RingSignature)
        } else {
            None
        }
    }

    /// The seed tag of this circuit's verifying-key cell.
    pub open spec fn spec_seed(self) -> Seq<u8> {
        match self {
            CircuitType::Transfer => seed_vk_transfer(),
            CircuitType::Balance => seed_vk_balance(),
            CircuitType::RingSignature => seed_vk_ring_sig(),
        }
    }

    /// The seed tag of this circuit's verifying-key cell, as bytes.
    pub fn seed(&self) -> (r: Vec<u8>)
        ensures
            r@ == self.spec_seed(),
    {
        match self {
            CircuitType::Transfer => vk_transfer_seed(),
            CircuitType::Balance => vk_balance_seed(),
            CircuitType::RingSignature => vk_ring_sig_seed(),
        }
    }
}

/// Mathematical state of one stored verifying key.
#[verifier::ext_equal]
pub ghost struct VkModel {
    pub circuit_type: CircuitType,
    pub pool: Seq<u8>,
    pub authority: Seq<u8>,
    pub vk_data: Seq<u8>,
    pub stored_at: int,
    pub bump: u8,
}

/// The stored verifying key of one circuit kind of one pool.
#[derive(Clone, Debug)]
pub struct VerificationKeyAccount {
    /// Which circuit the key verifies.
    pub circuit_type: CircuitType,
    /// Pool the key belongs to.
    pub pool: [u8; 32],
    /// Authority allowed to overwrite the key.
    pub authority: [u8; 32],
    /// The serialized verifying key.
    pub vk_data: Vec<u8>,
    /// When the key was stored.
    pub stored_at: i64,
    /// Bump seed of the record's derived address.
    pub bump: u8,
}

impl View for VerificationKeyAccount {
    type V = VkModel;

    open spec fn view(&self) -> VkModel {
        VkModel {
            circuit_type: self.circuit_type,
            pool: self.pool@,
            authority: self.authority@,
            vk_data: self.vk_data@,
            stored_at: self.stored_at as int,
            bump: self.bump,
        }
    }
}

impl VerificationKeyAccount {
    /// Address of the verifying-key cell of `circuit_type` under `pool`.
    pub fn derive_address(pool: &[u8; 32], circuit_type: CircuitType, program_id: &[u8; 32]) -> (r:
        Option<([u8; 32], u8)>)
        ensures
            (match r {
                Some((a, b)) => Some((a@, b)),
                None => None,
            }) == spec_pda(seq![circuit_type.spec_seed(), pool@], program_id@),
    {
        let mut seeds: Vec<Vec<u8>> = Vec::new();
        seeds.push(circuit_type.seed());
        seeds.push(word_to_vec(pool));
        proof {
            assert(byte_views(seeds@) =~= seq![circuit_type.spec_seed(), pool@]);
        }
        find_pda(&seeds, program_id)
    }
}

/// Mathematical state of one registered relayer.
#[verifier::ext_equal]
pub ghost struct RelayerModel {
    pub relayer: Seq<u8>,
    pub stake: int,
    pub successful_relays: int,
    pub failed_relays: int,
    pub last_heartbeat: int,
    pub is_active: bool,
    pub registered_at: int,
    pub endpoint: Seq<u8>,
    pub bump: u8,
}

/// One registered relay operator.
#[derive(Clone, Debug)]
pub struct RelayerAccount {
    /// The relayer's wallet address.
    pub relayer: [u8; 32],
    /// Staked value, held against misbehaviour.
    pub stake: u64,
    /// Relays reported successful.
    pub successful_relays: u64,
    /// Relays reported failed.
    pub failed_relays: u64,
    /// When the relayer last announced itself.
    pub last_heartbeat: i64,
    /// Whether the relayer is active (not slashed or banned).
    pub is_active: bool,
    /// When the relayer registered.
    pub registered_at: i64,
    /// Service endpoint, as bytes.
    pub endpoint: Vec<u8>,
    /// Bump seed of the record's derived address.
    pub bump: u8,
}

impl View for RelayerAccount {
    type V = RelayerModel;

    open spec fn view(&self) -> RelayerModel {
        RelayerModel {
            relayer: self.relayer@,
            stake: self.stake as int,
            successful_relays: self.successful_relays as int,
            failed_relays: self.failed_relays as int,
            last_heartbeat: self.last_heartbeat as int,
            is_active: self.is_active,
            registered_at: self.registered_at as int,
            endpoint: self.endpoint@,
            bump: self.bump,
        }
    }
}

/// Reputation of a relayer with the given history: 50 with no history at
/// all, otherwise the success percentage, capped at 100.
pub open spec fn spec_reputation(successes: int, failures: int) -> int {
    if successes == 0 && failures == 0 {
        50
    } else {
        let rate = (successes * 100) / (successes + failures);
        if rate > 100 {
            100
        } else {
            rate
        }
    }
}

impl RelayerAccount {
    /// This relayer's reputation score, in 0..=100.
    pub fn reputation_score(&self) -> (r: u8)
        requires
            self.successful_relays * 100 <= u64::MAX,
            self.successful_relays + self.failed_relays <= u64::MAX,
        ensures
            r == spec_reputation(self.successful_relays as int, self.failed_relays as int),
            r <= 100,
    {
        if self.successful_relays == 0 && self.failed_relays == 0 {
            return 50;
        }
        let total = self.successful_relays + self.failed_relays;
        let success_rate = (self.successful_relays * 100) / total;
        if success_rate > 100 {
            100
        } else {
            success_rate as u8
        }
    }

    /// Whether the relayer counts as online at `current_time`.
    pub fn is_online(&self, current_time: i64) -> (r: bool)
        requires
            self.is_active ==> i64::MIN <= current_time - self.last_heartbeat <= i64::MAX,
        ensures
            r == (self.is_active && current_time - self.last_heartbeat < HEARTBEAT_WINDOW),
    {
        self.is_active && (current_time - self.last_heartbeat) < HEARTBEAT_WINDOW
    }

    /// Address of the relayer record of `relayer`.
    pub fn derive_address(relayer: &[u8; 32], program_id: &[u8; 32]) -> (r: Option<([u8; 32], u8)>)
        ensures
            (match r {
                Some((a, b)) => Some((a@, b)),
                None => None,
            }) == spec_pda(seq![seed_relayer(), relayer@], program_id@),
    {
        let mut seeds: Vec<Vec<u8>> = Vec::new();
        seeds.push(relayer_seed());
        seeds.push(word_to_vec(relayer));
        proof {
            assert(byte_views(seeds@) =~= seq![seed_relayer(), relayer@]);
        }
        find_pda(&seeds, program_id)
    }
}

} // verus!
