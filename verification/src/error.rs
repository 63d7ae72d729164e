use vstd::prelude::*;

verus! {

/// Protocol-level failures, one per check the engine performs.
#[derive(Clone, Copy, Debug, PartialEq, Eq, Structural)]
pub enum PrivacyError {
    InvalidInstruction,
    InvalidProof,
    NullifierAlreadyUsed,
    InvalidMerkleRoot,
    InvalidCommitment,
    InvalidRingSignature,
    InvalidKeyImage,
    KeyImageAlreadyUsed,
    InvalidAmount,
    InvalidPublicKey,
    InsufficientFunds,
    PoolNotInitialized,
    InvalidPoolState,
    Unauthorized,
    InvalidAccountData,
    InvalidPublicInputs,
    InvalidVerificationKey,
    InvalidSignature,
    InvalidRingSize,
}

impl PrivacyError {
    /// The stable numeric code a protocol failure is reported under.
    pub open spec fn spec_code(self) -> u32 {
        match self {
            PrivacyError::InvalidInstruction => 0,
            PrivacyError::InvalidProof => 1,
            PrivacyError::NullifierAlreadyUsed => 2,
            PrivacyError::InvalidMerkleRoot => 3,
            PrivacyError::InvalidCommitment => 4,
            PrivacyError::InvalidRingSignature => 5,
            PrivacyError::InvalidKeyImage => 6,
            PrivacyError::KeyImageAlreadyUsed => 7,
            PrivacyError::InvalidAmount => 8,
            PrivacyError::InvalidPublicKey => 9,
            PrivacyError::InsufficientFunds => 10,
            PrivacyError::PoolNotInitialized => 11,
            PrivacyError::InvalidPoolState => 12,
            PrivacyError::Unauthorized => 13,
            PrivacyError::InvalidAccountData => 14,
            PrivacyError::InvalidPublicInputs => 15,
            PrivacyError::InvalidVerificationKey => 16,
            PrivacyError::InvalidSignature => 17,
            PrivacyError::InvalidRingSize => 18,
        }
    }

    /// Numeric code of this failure, for the host's custom-error channel.
    pub fn code(self) -> (r: u32)
        ensures
            r == self.spec_code(),
    {
        match self {
            PrivacyError::InvalidInstruction => 0,
            PrivacyError::InvalidProof => 1,
            PrivacyError::NullifierAlreadyUsed => 2,
            PrivacyError::InvalidMerkleRoot => 3,
            PrivacyError::InvalidCommitment => 4,
            PrivacyError::InvalidRingSignature => 5,
            PrivacyError::InvalidKeyImage => 6,
            PrivacyError::KeyImageAlreadyUsed => 7,
            PrivacyError::InvalidAmount => 8,
            PrivacyError::InvalidPublicKey => 9,
            PrivacyError::InsufficientFunds => 10,
            PrivacyError::PoolNotInitialized => 11,
            PrivacyError::InvalidPoolState => 12,
            PrivacyError::Unauthorized => 13,
            PrivacyError::InvalidAccountData => 14,
            PrivacyError::InvalidPublicInputs => 15,
            PrivacyError::InvalidVerificationKey => 16,
            PrivacyError::InvalidSignature => 17,
            PrivacyError::InvalidRingSize => 18,
        }
    }
}

/// The failure space of a whole request: host-level authorization and
/// account checks beside the protocol failures of [`PrivacyError`].
#[derive(Clone, Copy, Debug, PartialEq, Eq, Structural)]
pub enum EngineError {
    /// A required signer did not sign the request.
    MissingRequiredSignature,
    /// A supplied account does not match the address the engine derived.
    InvalidAccountData,
    /// A protocol-level failure.
    Privacy(PrivacyError),
}

} // verus!
