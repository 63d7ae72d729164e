use vstd::prelude::*;
use crate::util::byte_views;

verus! {

/// The program-derived address and bump seed for the given seeds and program
/// id: deterministic, a function of its arguments alone; `None` when no bump
/// yields a valid derived address.
pub uninterp spec fn spec_pda(seeds: Seq<Seq<u8>>, program_id: Seq<u8>) -> Option<(Seq<u8>, u8)>;

/// Relies on Pubkey::try_find_program_address: deterministic derivation of a
/// program address and bump seed from the seeds and the program id, `None`
/// when no bump seed produces a valid (off-curve) address.
#[verifier::external_body]
pub(crate) fn find_pda(seeds: &Vec<Vec<u8>>, program_id: &[u8; 32]) -> (r: Option<([u8; 32], u8)>)
    ensures
        (match r {
            Some((a, b)) => Some((a@, b)),
            None => None,
        }) == spec_pda(byte_views(seeds@), program_id@),
{
    let seed_slices: Vec<&[u8]> = seeds.iter().map(|v| v.as_slice()).collect();
    let pid = solana_program::pubkey::Pubkey::new_from_array(*program_id);
    match solana_program::pubkey::Pubkey::try_find_program_address(&seed_slices, &pid) {
        Some((a, b)) => Some((a.to_bytes(), b)),
        None => None,
    }
}

/// The seed tag of a pool's vault cell ("vault").
pub open spec fn seed_vault() -> Seq<u8> {
    seq![118u8, 97u8, 117u8, 108u8, 116u8]
}

/// The seed tag of a nullifier existence record ("nullifier").
pub open spec fn seed_nullifier() -> Seq<u8> {
    seq![110u8, 117u8, 108u8, 108u8, 105u8, 102u8, 105u8, 101u8, 114u8]
}

/// The seed tag of a key-image existence record ("key_image").
pub open spec fn seed_key_image() -> Seq<u8> {
    seq![107u8, 101u8, 121u8, 95u8, 105u8, 109u8, 97u8, 103u8, 101u8]
}

/// The seed tag of a relayer record ("relayer").
pub open spec fn seed_relayer() -> Seq<u8> {
    seq![114u8, 101u8, 108u8, 97u8, 121u8, 101u8, 114u8]
}

/// The seed tag of the transfer-circuit verifying key ("vk_transfer").
pub open spec fn seed_vk_transfer() -> Seq<u8> {
    seq![118u8, 107u8, 95u8, 116u8, 114u8, 97u8, 110u8, 115u8, 102u8, 101u8, 114u8]
}

/// The seed tag of the balance-circuit verifying key ("vk_balance").
pub open spec fn seed_vk_balance() -> Seq<u8> {
    seq![118u8, 107u8, 95u8, 98u8, 97u8, 108u8, 97u8, 110u8, 99u8, 101u8]
}

/// The seed tag of the ring-signature-circuit verifying key ("vk_ring_sig").
pub open spec fn seed_vk_ring_sig() -> Seq<u8> {
    seq![118u8, 107u8, 95u8, 114u8, 105u8, 110u8, 103u8, 95u8, 115u8, 105u8, 103u8]
}

/// The byte string "vault", the vault seed tag.
pub(crate) fn vault_seed() -> (r: Vec<u8>)
    ensures
        r@ == seed_vault(),
{
    let mut r: Vec<u8> = Vec::new();
    r.push(118);
    r.push(97);
    r.push(117);
    r.push(108);
    r.push(116);
    proof {
        assert(r@ =~= seed_vault());
    }
    r
}

/// The byte string "nullifier", the nullifier-record seed tag.
pub(crate) fn nullifier_seed() -> (r: Vec<u8>)
    ensures
        r@ == seed_nullifier(),
{
    let mut r: Vec<u8> = Vec::new();
    r.push(110);
    r.push(117);
    r.push(108);
    r.push(108);
    r.push(105);
    r.push(102);
    r.push(105);
    r.push(101);
    r.push(114);
    proof {
        assert(r@ =~= seed_nullifier());
    }
    r
}

/// The byte string "key_image", the key-image-record seed tag.
pub(crate) fn key_image_seed() -> (r: Vec<u8>)
    ensures
        r@ == seed_key_image(),
{
    let mut r: Vec<u8> = Vec::new();
    r.push(107);
    r.push(101);
    r.push(121);
    r.push(95);
    r.push(105);
    r.push(109);
    r.push(97);
    r.push(103);
    r.push(101);
    proof {
        assert(r@ =~= seed_key_image());
    }
    r
}

/// The byte string "relayer", the relayer-record seed tag.
pub(crate) fn relayer_seed() -> (r: Vec<u8>)
    ensures
        r@ == seed_relayer(),
{
    let mut r: Vec<u8> = Vec::new();
    r.push(114);
    r.push(101);
    r.push(108);
    r.push(97);
    r.push(121);
    r.push(101);
    r.push(114);
    proof {
        assert(r@ =~= seed_relayer());
    }
    r
}

/// The byte string "vk_transfer", the transfer-circuit key seed tag.
pub(crate) fn vk_transfer_seed() -> (r: Vec<u8>)
    ensures
        r@ == seed_vk_transfer(),
{
    let mut r: Vec<u8> = Vec::new();
    r.push(118);
    r.push(107);
    r.push(95);
    r.push(116);
    r.push(114);
    r.push(97);
    r.push(110);
    r.push(115);
    r.push(102);
    r.push(101);
    r.push(114);
    proof {
        assert(r@ =~= seed_vk_transfer());
    }
    r
}

/// The byte string "vk_balance", the balance-circuit key seed tag.
pub(crate) fn vk_balance_seed() -> (r: Vec<u8>)
    ensures
        r@ == seed_vk_balance(),
{
    let mut r: Vec<u8> = Vec::new();
    r.push(118);
    r.push(107);
    r.push(95);
    r.push(98);
    r.push(97);
    r.push(108);
    r.push(97);
    r.push(110);
    r.push(99);
    r.push(101);
    proof {
        assert(r@ =~= seed_vk_balance());
    }
    r
}

/// The byte string "vk_ring_sig", the ring-signature-circuit key seed tag.
pub(crate) fn vk_ring_sig_seed() -> (r: Vec<u8>)
    ensures
        r@ == seed_vk_ring_sig(),
{
    let mut r: Vec<u8> = Vec::new();
    r.push(118);
    r.push(107);
    r.push(95);
    r.push(114);
    r.push(105);
    r.push(110);
    r.push(103);
    r.push(95);
    r.push(115);
    r.push(105);
    r.push(103);
    proof {
        assert(r@ =~= seed_vk_ring_sig());
    }
    r
}

} // verus!
