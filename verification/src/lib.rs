//! On-ledger verification and state-transition engine for a shielded value
//! pool: commitment deposits, proof-gated withdrawals, ring-signature
//! transfers, shielded assets, a verification-key registry and a relayer
//! registry.
pub mod error;
pub mod groth;
pub mod keccak;
pub mod laws;
pub mod pda;
pub mod processor;
pub mod registry;
pub mod state;
pub mod util;
pub mod verification;

pub use error::EngineError;
pub use error::PrivacyError;
pub use processor::Payout;
pub use processor::Processor;
pub use processor::StoredKey;
pub use registry::CircuitType;
pub use registry::RelayerAccount;
pub use registry::VerificationKeyAccount;
pub use state::AssetState;
pub use state::Commitment;
pub use state::KeyImageAccount;
pub use state::NullifierAccount;
pub use state::PoolState;
pub use state::ShieldedNote;
pub use verification::load_verification_key_from_account;
pub use verification::verify_balance_proof;
pub use verification::verify_ring_signature;
pub use verification::verify_transfer_proof;
pub use verification::VerificationMode;
