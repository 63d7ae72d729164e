use shadow_privacy::verify_ring_signature;
use shadow_privacy::verification::VerificationMode;
use shadow_privacy::verify_transfer_proof;
use shadow_privacy::{EngineError, PrivacyError};

#[test]
fn test_verify_ring_signature() {
    // Eleven ring members want a signature of 32 + 11 * 32 bytes; one of
    // 11 * 64 bytes has the wrong length.
    let signature = vec![0u8; 11 * 64];
    let key_image = [0u8; 32];
    let ring_members = vec![[0u8; 32]; 11];

    let result = verify_ring_signature(&signature, &key_image, &ring_members);
    assert_eq!(
        result.unwrap_err(),
        EngineError::Privacy(PrivacyError::InvalidSignature)
    );

    let well_sized = vec![0u8; 32 + 11 * 32];
    let result = verify_ring_signature(&well_sized, &key_image, &ring_members);
    assert!(result.is_ok());
}

#[test]
fn test_invalid_ring_size() {
    let signature = vec![0u8; 20 * 64];
    let key_image = [0u8; 32];
    let ring_members = vec![[0u8; 32]; 20];

    let result = verify_ring_signature(&signature, &key_image, &ring_members);
    assert_eq!(
        result.unwrap_err(),
        EngineError::Privacy(PrivacyError::InvalidRingSize)
    );
}

#[test]
fn empty_ring_rejected() {
    let result = verify_ring_signature(&[0u8; 32], &[0u8; 32], &[]);
    assert_eq!(
        result.unwrap_err(),
        EngineError::Privacy(PrivacyError::InvalidRingSize)
    );
}

#[test]
fn sixteen_members_accepted_seventeen_rejected() {
    let key_image = [1u8; 32];
    let members16 = vec![[2u8; 32]; 16];
    let sig16 = vec![3u8; 32 + 16 * 32];
    assert!(verify_ring_signature(&sig16, &key_image, &members16).is_ok());

    let members17 = vec![[2u8; 32]; 17];
    let sig17 = vec![3u8; 32 + 17 * 32];
    assert_eq!(
        verify_ring_signature(&sig17, &key_image, &members17).unwrap_err(),
        EngineError::Privacy(PrivacyError::InvalidRingSize)
    );
}

#[test]
fn unclosed_chain_reports_false() {
    // The challenge chain is a fresh Keccak-256 digest per round, so a
    // straight-line signature does not close back on its seed.
    let key_image = [7u8; 32];
    let members = vec![[1u8; 32], [2u8; 32]];
    let signature = vec![0u8; 96];
    let result = verify_ring_signature(&signature, &key_image, &members).unwrap();
    assert!(!result);
}

#[test]
fn altered_response_scalar_does_not_verify() {
    let key_image = [7u8; 32];
    let members = vec![[1u8; 32], [2u8; 32], [3u8; 32]];
    let mut signature = vec![5u8; 32 + 3 * 32];
    assert!(!verify_ring_signature(&signature, &key_image, &members).unwrap());
    // Flip one bit of the second response scalar: still unverified.
    signature[32 + 32 + 4] ^= 0x10;
    assert!(!verify_ring_signature(&signature, &key_image, &members).unwrap());
}

#[test]
fn test_verify_transfer_proof() {
    // In the permissive mode the check reports success without evaluating
    // the proof.
    let proof = vec![0u8; 192];
    let public_inputs = vec![vec![0u8; 32], vec![0u8; 32], vec![0u8; 32]];

    let result = verify_transfer_proof(&proof, &public_inputs, &[], VerificationMode::Permissive);
    assert!(result.is_ok());
    assert!(result.unwrap());
}

#[test]
fn test_invalid_proof_size() {
    // In the strict mode an undersized proof cannot verify: with no stored
    // key the check fails before the pairing equation is ever reached.
    let proof = vec![0u8; 100];
    let public_inputs = vec![vec![0u8; 32]];

    let result = verify_transfer_proof(&proof, &public_inputs, &[], VerificationMode::Strict);
    assert!(result.is_err());
}
