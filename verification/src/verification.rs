use vstd::prelude::*;
use vstd::slice::slice_index_get;
use crate::error::{EngineError, PrivacyError};
use crate::groth::{groth16_check, spec_groth16, GrothOutcome};
use crate::keccak::{keccak256, spec_keccak256};
use crate::registry::{CircuitType, VerificationKeyAccount, VkModel};
use crate::util::{append_word, byte_views, copy_range, eq32, read32, views_of};

verus! {

/// How zero-knowledge proofs are checked: `Strict` runs the full pairing
/// check; `Permissive` reports success without evaluating the proof. The
/// mode is a deployment-time configuration, never a request parameter.
#[derive(Clone, Copy, Debug, PartialEq, Eq, Structural)]
pub enum VerificationMode {
    Strict,
    Permissive,
}

/// Little-endian value of four bytes.
pub open spec fn spec_le_u32(s: Seq<u8>) -> int
    recommends
        s.len() == 4,
{
    s[0] + s[1] * 0x100 + s[2] * 0x1_0000 + s[3] * 0x100_0000
}

/// Little-endian value of eight bytes.
pub open spec fn spec_le_u64(s: Seq<u8>) -> int
    recommends
        s.len() == 8,
{
    s[0] + s[1] * 0x100 + s[2] * 0x1_0000 + s[3] * 0x100_0000 + s[4] * 0x1_0000_0000 + s[5]
        * 0x100_0000_0000 + s[6] * 0x1_0000_0000_0000 + s[7] * 0x100_0000_0000_0000
}

/// Eight little-endian bytes read as a two's-complement signed value.
pub open spec fn spec_le_i64(s: Seq<u8>) -> int
    recommends
        s.len() == 8,
{
    if spec_le_u64(s) <= i64::MAX {
        spec_le_u64(s)
    } else {
        spec_le_u64(s) - 0x1_0000_0000_0000_0000
    }
}

/// The circuit kind a wire tag stands for, defaulting for invalid tags;
/// guarded everywhere by [`CircuitType::spec_from_tag`] being `Some`.
pub open spec fn spec_tag_circuit(tag: u8) -> CircuitType {
    match CircuitType::spec_from_tag(tag) {
        Some(c) => c,
        None => CircuitType::Transfer,
    }
}

/// Whether `d` is a well-formed verification-key record: a valid circuit
/// tag, pool and authority addresses, length-prefixed key bytes, timestamp
/// and bump seed, with the length prefix consuming the bytes exactly.
pub open spec fn vk_account_bytes_ok(d: Seq<u8>) -> bool {
    &&& d.len() >= 78
    &&& CircuitType::spec_from_tag(d[0]) matches Some(_)
    &&& spec_le_u32(d.subrange(65, 69)) == d.len() - 78
}

/// The key bytes of a well-formed verification-key record.
pub open spec fn spec_vk_data(d: Seq<u8>) -> Seq<u8>
    recommends
        vk_account_bytes_ok(d),
{
    d.subrange(69, d.len() - 9)
}

/// The verification-key record that well-formed bytes `d` lay out.
pub open spec fn spec_vk_account(d: Seq<u8>) -> VkModel
    recommends
        vk_account_bytes_ok(d),
{
    VkModel {
        circuit_type: spec_tag_circuit(d[0]),
        pool: d.subrange(1, 33),
        authority: d.subrange(33, 65),
        vk_data: spec_vk_data(d),
        stored_at: spec_le_i64(d.subrange(d.len() - 9, d.len() - 1)),
        bump: d[d.len() - 1],
    }
}

/// Parse a stored verification-key record from its raw cell bytes.
pub fn load_verification_key_from_account(vk_account_data: &[u8]) -> (r: Result<
    VerificationKeyAccount,
    EngineError,
>)
    ensures
        (match r {
            Ok(a) => vk_account_bytes_ok(vk_account_data@) && a@ == spec_vk_account(
                vk_account_data@,
            ),
            Err(e) => !vk_account_bytes_ok(vk_account_data@) && e == EngineError::Privacy(
                PrivacyError::InvalidVerificationKey,
            ),
        }),
{
    let d = vk_account_data;
    let dn = d.len();
    if dn < 78 {
        return Err(EngineError::Privacy(PrivacyError::InvalidVerificationKey));
    }
    let ct = match CircuitType::from_tag(d[0]) {
        Some(c) => c,
        None => {
            return Err(EngineError::Privacy(PrivacyError::InvalidVerificationKey));
        },
    };
    let len_val: u32 = d[65] as u32 + (d[66] as u32) * 0x100 + (d[67] as u32) * 0x1_0000 + (
    d[68] as u32) * 0x100_0000;
    proof {
        let s = d@.subrange(65, 69);
        assert(s[0] == d@[65] && s[1] == d@[66] && s[2] == d@[67] && s[3] == d@[68]);
    }
    if (len_val as usize) != dn - 78 {
        return Err(EngineError::Privacy(PrivacyError::InvalidVerificationKey));
    }
    let pool = read32(d, 1);
    let authority = read32(d, 33);
    let vk_data = copy_range(d, 69, dn - 78);
    let lo: u64 = d[dn - 9] as u64 + (d[dn - 8] as u64) * 0x100 + (d[dn - 7] as u64) * 0x1_0000 + (
    d[dn - 6] as u64) * 0x100_0000 + (d[dn - 5] as u64) * 0x1_0000_0000 + (d[dn - 4] as u64)
        * 0x100_0000_0000 + (d[dn - 3] as u64) * 0x1_0000_0000_0000 + (d[dn - 2] as u64)
        * 0x100_0000_0000_0000;
    let stored_at: i64 = if lo <= 0x7fff_ffff_ffff_ffff {
        lo as i64
    } else {
        -((u64::MAX - lo) as i64) - 1
    };
    let bump = d[dn - 1];
    let account = VerificationKeyAccount { circuit_type: ct, pool, authority, vk_data, stored_at, bump };
    proof {
        let s = d@.subrange(dn - 9, dn - 1);
        assert(s[0] == d@[dn - 9] && s[1] == d@[dn - 8] && s[2] == d@[dn - 7] && s[3] == d@[dn - 6]
            && s[4] == d@[dn - 5] && s[5] == d@[dn - 4] && s[6] == d@[dn - 3] && s[7] == d@[dn
            - 2]);
        assert(lo as int == spec_le_u64(s));
        assert(account@ =~= spec_vk_account(d@));
    }
    Ok(account)
}

/// Whether every public-input word is exactly 32 bytes.
pub open spec fn inputs_well_sized(inputs: Seq<Seq<u8>>) -> bool {
    forall|i: int| 0 <= i < inputs.len() ==> (#[trigger] inputs[i]).len() == 32
}

/// What a pairing-based proof check reports for the given proof bytes,
/// public-input words and verification-key cell bytes, under `mode`.
pub open spec fn spec_verify_groth16(
    proof_bytes: Seq<u8>,
    inputs: Seq<Seq<u8>>,
    vk_account: Seq<u8>,
    mode: VerificationMode,
) -> Result<bool, EngineError> {
    if mode == VerificationMode::Permissive {
        Ok(true)
    } else if !vk_account_bytes_ok(vk_account) {
        Err(EngineError::Privacy(PrivacyError::InvalidVerificationKey))
    } else if !inputs_well_sized(inputs) {
        Err(EngineError::Privacy(PrivacyError::InvalidPublicInputs))
    } else {
        match spec_groth16(spec_vk_data(vk_account), proof_bytes, inputs) {
            GrothOutcome::BadKey => Err(EngineError::Privacy(PrivacyError::InvalidVerificationKey)),
            GrothOutcome::BadProof => Err(EngineError::Privacy(PrivacyError::InvalidProof)),
            GrothOutcome::BadInput => Err(EngineError::Privacy(PrivacyError::InvalidPublicInputs)),
            GrothOutcome::Verified(b) => Ok(b),
        }
    }
}

/// The shared pairing-based check behind the transfer and balance entries.
fn verify_groth16(
    proof_bytes: &[u8],
    public_inputs: &[Vec<u8>],
    vk_account_data: &[u8],
    mode: VerificationMode,
) -> (r: Result<bool, EngineError>)
    ensures
        r == spec_verify_groth16(proof_bytes@, byte_views(public_inputs@), vk_account_data@, mode),
{
    match mode {
        VerificationMode::Permissive => {
            return Ok(true);
        },
        VerificationMode::Strict => {},
    }
    let account = match load_verification_key_from_account(vk_account_data) {
        Ok(a) => a,
        Err(e) => {
            return Err(e);
        },
    };
    let n = public_inputs.len();
    let mut i: usize = 0;
    while i < n
        invariant
            0 <= i <= n,
            n == public_inputs@.len(),
            mode == VerificationMode::Strict,
            vk_account_bytes_ok(vk_account_data@),
            account.vk_data@ == spec_vk_data(vk_account_data@),
            forall|j: int| 0 <= j < i ==> (#[trigger] byte_views(public_inputs@)[j]).len() == 32,
        decreases n - i,
    {
        let input = slice_index_get(public_inputs, i);
        if input.len() != 32 {
            proof {
                assert(byte_views(public_inputs@)[i as int].len() != 32);
                assert(!inputs_well_sized(byte_views(public_inputs@)));
            }
            return Err(EngineError::Privacy(PrivacyError::InvalidPublicInputs));
        }
        i += 1;
    }
    proof {
        assert(inputs_well_sized(byte_views(public_inputs@)));
    }
    match groth16_check(account.vk_data.as_slice(), proof_bytes, public_inputs) {
        GrothOutcome::BadKey => Err(EngineError::Privacy(PrivacyError::InvalidVerificationKey)),
        GrothOutcome::BadProof => Err(EngineError::Privacy(PrivacyError::InvalidProof)),
        GrothOutcome::BadInput => Err(EngineError::Privacy(PrivacyError::InvalidPublicInputs)),
        GrothOutcome::Verified(b) => Ok(b),
    }
}

/// Check a transfer proof against the stored transfer verifying key.
pub fn verify_transfer_proof(
    proof_bytes: &[u8],
    public_inputs: &[Vec<u8>],
    vk_account_data: &[u8],
    mode: VerificationMode,
) -> (r: Result<bool, EngineError>)
    ensures
        r == spec_verify_groth16(proof_bytes@, byte_views(public_inputs@), vk_account_data@, mode),
{
    verify_groth16(proof_bytes, public_inputs, vk_account_data, mode)
}

/// Check a balance proof against the stored balance verifying key.
pub fn verify_balance_proof(
    proof_bytes: &[u8],
    public_inputs: &[Vec<u8>],
    vk_account_data: &[u8],
    mode: VerificationMode,
) -> (r: Result<bool, EngineError>)
    ensures
        r == spec_verify_groth16(proof_bytes@, byte_views(public_inputs@), vk_account_data@, mode),
{
    verify_groth16(proof_bytes, public_inputs, vk_account_data, mode)
}

/// The challenge after `n` rounds of the ring's hash chain, seeded with the
/// signature's initial challenge.
pub open spec fn spec_ring_chain(
    sig: Seq<u8>,
    members: Seq<Seq<u8>>,
    key_image: Seq<u8>,
    n: int,
) -> Seq<u8>
    decreases n,
{
    if n <= 0 {
        sig.subrange(0, 32)
    } else {
        spec_keccak256(
            spec_ring_chain(sig, members, key_image, n - 1) + sig.subrange(32 * n, 32 * n + 32)
                + members[n - 1] + key_image,
        )
    }
}

/// Whether the ring's hash chain closes back on the initial challenge.
pub open spec fn spec_ring_closes(sig: Seq<u8>, members: Seq<Seq<u8>>, key_image: Seq<u8>) -> bool {
    spec_ring_chain(sig, members, key_image, members.len() as int) == sig.subrange(0, 32)
}

/// What ring-signature verification reports: ring size and signature length
/// are checked first, then the chain closure decides.
pub open spec fn spec_verify_ring_signature(
    sig: Seq<u8>,
    members: Seq<Seq<u8>>,
    key_image: Seq<u8>,
) -> Result<bool, EngineError> {
    if members.len() == 0 || members.len() > 16 {
        Err(EngineError::Privacy(PrivacyError::InvalidRingSize))
    } else if sig.len() != 32 + 32 * members.len() {
        Err(EngineError::Privacy(PrivacyError::InvalidSignature))
    } else {
        Ok(spec_ring_closes(sig, members, key_image))
    }
}

/// Check a linkable ring signature over `ring_members` and `key_image`.
///
/// The signature is an initial 32-byte challenge followed by one 32-byte
/// response per ring member; verification recomputes the challenge chain by
/// hashing `(challenge ‖ response ‖ member ‖ key_image)` per member and
/// succeeds exactly when the final challenge equals the initial one. This is
/// a structural consistency check over the scalars and a hash, not
/// elliptic-curve group verification.
pub fn verify_ring_signature(
    signature: &[u8],
    key_image: &[u8; 32],
    ring_members: &[[u8; 32]],
) -> (r: Result<bool, EngineError>)
    ensures
        r == spec_verify_ring_signature(signature@, views_of(ring_members@), key_image@),
{
    let n = ring_members.len();
    if n == 0 || n > 16 {
        return Err(EngineError::Privacy(PrivacyError::InvalidRingSize));
    }
    let sn = signature.len();
    if sn != 32 + 32 * n {
        return Err(EngineError::Privacy(PrivacyError::InvalidSignature));
    }
    let c0 = read32(signature, 0);
    let mut current = c0;
    let mut i: usize = 0;
    while i < n
        invariant
            0 <= i <= n,
            n == ring_members@.len(),
            n <= 16,
            sn == signature@.len(),
            sn == 32 + 32 * n,
            current@ == spec_ring_chain(
                signature@,
                views_of(ring_members@),
                key_image@,
                i as int,
            ),
        decreases n - i,
    {
        let mut input: Vec<u8> = Vec::new();
        append_word(&mut input, &current);
        let resp = read32(signature, 32 + 32 * i);
        append_word(&mut input, &resp);
        let member = ring_members[i];
        append_word(&mut input, &member);
        append_word(&mut input, key_image);
        proof {
            assert(input@ =~= spec_ring_chain(signature@, views_of(ring_members@), key_image@, i as int)
                + signature@.subrange(32 * (i + 1), 32 * (i + 1) + 32)
                + views_of(ring_members@)[i as int] + key_image@);
        }
        current = keccak256(input.as_slice());
        i += 1;
    }
    let closes = eq32(&current, &c0);
    proof {
        assert(c0@ == signature@.subrange(0, 32));
    }
    Ok(closes)
}

} // verus!
