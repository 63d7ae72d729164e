use vstd::prelude::*;

verus! {

/// Keccak-256 digest of a byte sequence. The digest is 32 bytes and depends
/// on the input bytes alone; no shorter statement of its value exists, so the
/// engine's contracts speak of it only through this name.
pub uninterp spec fn spec_keccak256(data: Seq<u8>) -> Seq<u8>;

/// Relies on solana_program::keccak::hash: the Keccak-256 digest of the
/// input, 32 bytes, a pure function of the input bytes.
#[verifier::external_body]
pub(crate) fn keccak256(data: &[u8]) -> (r: [u8; 32])
    ensures
        r@ == spec_keccak256(data@),
{
    solana_program::keccak::hash(data).to_bytes()
}

} // verus!
