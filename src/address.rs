//! Derivation of a claim's storage slot from its identifier.
use vstd::prelude::*;

verus! {

/// Address and derivation parameter that the program-address search of
/// `Pubkey::try_find_program_address` yields for the seeds `[tag, key]` under
/// `program`, or `None` where no parameter gives a valid address.
pub uninterp spec fn program_address(tag: Seq<u8>, key: Seq<u8>, program: Seq<u8>) -> Option<(Seq<u8>, u8)>;

/// Relies on `Pubkey::try_find_program_address` of the Solana program crate:
/// a pure search over hashes of the seeds and the program key, so its result
/// depends on these bytes alone.
#[verifier::external_body]
fn try_find_program_address(tag: &[u8], key: &[u8; 32], program: &[u8; 32]) -> (r: Option<([u8; 32], u8)>)
    ensures
        match r {
            Some((a, b)) => program_address(tag@, key@, program@) == Some((a@, b)),
            None => program_address(tag@, key@, program@) is None,
        },
{
    let program = anchor_lang::solana_program::pubkey::Pubkey::new_from_array(*program);
    anchor_lang::solana_program::pubkey::Pubkey::try_find_program_address(&[tag, key.as_slice()], &program)
        .map(|(a, b)| (a.to_bytes(), b))
}

/// Domain-separation tag that prefixes every slot derivation.
pub open spec fn seed_tag() -> Seq<u8> {
    seq![97u8, 116, 116, 101, 115, 116, 97, 116, 105, 111, 110]
}

fn seed_tag_bytes() -> (r: [u8; 11])
    ensures
        r@ == seed_tag(),
{
    let r: [u8; 11] = [97u8, 116, 116, 101, 115, 116, 97, 116, 105, 111, 110];
    assert(r@ =~= seed_tag());
    r
}

/// The slot of `claim_id` under `program`: its address and derivation parameter.
pub open spec fn slot_of(program: Seq<u8>, claim_id: Seq<u8>) -> Option<(Seq<u8>, u8)> {
    program_address(seed_tag(), claim_id, program)
}

/// Address of the slot of `claim_id` under `program`, where it has one.
pub open spec fn slot_address(program: Seq<u8>, claim_id: Seq<u8>) -> Seq<u8> {
    match slot_of(program, claim_id) {
        Some((a, _)) => a,
        None => Seq::empty(),
    }
}

/// Derivation parameter of the slot of `claim_id` under `program`, where it has one.
pub open spec fn slot_bump(program: Seq<u8>, claim_id: Seq<u8>) -> u8 {
    match slot_of(program, claim_id) {
        Some((_, b)) => b,
        None => 0,
    }
}

/// Computes the slot of `claim_id` under `program`; `None` where the claim
/// yields no valid address.
pub fn attestation_address(program: &[u8; 32], claim_id: &[u8; 32]) -> (r: Option<([u8; 32], u8)>)
    ensures
        match r {
            Some((a, b)) => slot_of(program@, claim_id@) == Some((a@, b)),
            None => slot_of(program@, claim_id@) is None,
        },
{
    let tag = seed_tag_bytes();
    try_find_program_address(tag.as_slice(), claim_id, program)
}

/// Whether two 32-byte strings are equal.
pub fn same_bytes(a: &[u8; 32], b: &[u8; 32]) -> (r: bool)
    ensures
        r == (a@ == b@),
{
    let mut i: usize = 0;
    while i < 32
        invariant
            0 <= i <= 32,
            a@.len() == 32,
            b@.len() == 32,
            forall|j: int| 0 <= j < i ==> a@[j] == b@[j],
        decreases 32 - i,
    {
        if a[i] != b[i] {
            return false;
        }
        i = i + 1;
    }
    assert(a@ =~= b@);
    true
}

} // verus!
