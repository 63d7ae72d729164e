use vstd::prelude::*;
use crate::util::byte_views;
use ark_bn254::{Bn254, Fr};
use ark_groth16::{prepare_verifying_key, Groth16, Proof, VerifyingKey};
use ark_serialize::CanonicalDeserialize;

verus! {

/// Outcome of the strict pairing-based check on raw bytes.
#[derive(Clone, Copy, Debug, PartialEq, Eq, Structural)]
pub enum GrothOutcome {
    /// The verifying-key bytes do not decode as a verifying key.
    BadKey,
    /// The proof bytes do not decode as a proof, or the check itself failed.
    BadProof,
    /// Some public-input word does not decode as a field element.
    BadInput,
    /// Everything decoded; the pairing equation held exactly when `true`.
    Verified(bool),
}

/// What the pairing-based check returns for the given verifying-key bytes,
/// proof bytes and public-input words: deterministic, a function of the bytes
/// alone. Its value on given bytes has no short statement, so contracts speak
/// of it only through this name.
pub uninterp spec fn spec_groth16(vk_data: Seq<u8>, proof_bytes: Seq<u8>, inputs: Seq<Seq<u8>>) -> GrothOutcome;

/// Relies on ark_groth16 and ark_bn254: `VerifyingKey`, `Proof` and `Fr`
/// decoding via `CanonicalDeserialize::deserialize_compressed`, and
/// `Groth16::verify_proof` after `prepare_verifying_key`. All of them are
/// deterministic functions of the argument bytes, so the combined outcome is
/// named by `spec_groth16`.
#[verifier::external_body]
pub(crate) fn groth16_check(vk_data: &[u8], proof_bytes: &[u8], inputs: &[Vec<u8>]) -> (r: GrothOutcome)
    ensures
        r == spec_groth16(vk_data@, proof_bytes@, byte_views(inputs@)),
{
    let vk = match VerifyingKey::<Bn254>::deserialize_compressed(vk_data) { Ok(v) => v, Err(_) => return GrothOutcome::BadKey };
    let pf = match Proof::<Bn254>::deserialize_compressed(proof_bytes) { Ok(p) => p, Err(_) => return GrothOutcome::BadProof };
    let mut elems = Vec::new();
    for input in inputs {
        match Fr::deserialize_compressed(&input[..]) { Ok(f) => elems.push(f), Err(_) => return GrothOutcome::BadInput }
    }
    match Groth16::<Bn254>::verify_proof(&prepare_verifying_key(&vk), &pf, &elems) {
        Ok(b) => GrothOutcome::Verified(b),
        Err(_) => GrothOutcome::BadProof,
    }
}

} // verus!
