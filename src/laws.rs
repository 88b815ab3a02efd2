//! Properties of the store that relate several operations, proved over the
//! abstract ledger that the operations' contracts describe.
use vstd::prelude::*;
use crate::address::{slot_address, slot_bump, slot_of};
use crate::record::{event_of, AttestProof, ErrorCode, ProofAttestation};
use crate::store::{attest_spec, new_record, query_spec, Ledger};

verus! {

/// Write-once: on a claim whose slot is free, a signed write succeeds; any
/// later signed write of the same claim, whatever its payload, is refused with
/// `AttestationExists` and leaves the ledger as the first write left it.
pub proof fn lemma_write_once(
    l: Ledger,
    ctx1: AttestProof,
    ctx2: AttestProof,
    claim_id: [u8; 32],
    proof_hash1: [u8; 32],
    inputs1: [u64; 4],
    sig1: [u8; 64],
    proof_hash2: [u8; 32],
    inputs2: [u64; 4],
    sig2: [u8; 64],
)
    requires
        ctx1.authority_signed,
        ctx2.authority_signed,
        slot_of(l.program_id, claim_id@) is Some,
        !l.records.contains_key(slot_address(l.program_id, claim_id@)),
    ensures
        attest_spec(l, ctx1, claim_id, proof_hash1, inputs1, sig1).1 is Ok,
        ({
            let l1 = attest_spec(l, ctx1, claim_id, proof_hash1, inputs1, sig1).0;
            attest_spec(l1, ctx2, claim_id, proof_hash2, inputs2, sig2) == (l1, Err::<ProofAttestation, ErrorCode>(ErrorCode::AttestationExists))
        }),
{
}

/// Deterministic addressing: the slot of a claim depends on the program key
/// and the claim identifier alone, so equal inputs give equal slots.
pub proof fn lemma_address_deterministic(program: Seq<u8>, a: Seq<u8>, b: Seq<u8>)
    requires
        a == b,
    ensures
        slot_of(program, a) == slot_of(program, b),
{
}

/// Read-after-write: after a successful write, a read of the same claim
/// returns the written record, whose fields are the write's inputs, the
/// caller's key and time, and the slot's derivation parameter.
pub proof fn lemma_read_after_write(
    l: Ledger,
    ctx: AttestProof,
    claim_id: [u8; 32],
    proof_hash: [u8; 32],
    public_inputs: [u64; 4],
    refund_signature: [u8; 64],
)
    requires
        attest_spec(l, ctx, claim_id, proof_hash, public_inputs, refund_signature).1 is Ok,
    ensures
        ({
            let (l1, r) = attest_spec(l, ctx, claim_id, proof_hash, public_inputs, refund_signature);
            &&& query_spec(l1, claim_id) == r
            &&& r->Ok_0 == new_record(ctx, claim_id, proof_hash, public_inputs, refund_signature, slot_bump(l.program_id, claim_id@))
        }),
{
}

/// Unknown claim: a read of a claim whose slot holds no record is refused
/// with `NotFound`; it never yields a record.
pub proof fn lemma_unknown_claim(l: Ledger, claim_id: [u8; 32])
    requires
        !l.records.contains_key(slot_address(l.program_id, claim_id@)),
    ensures
        query_spec(l, claim_id) == Err::<ProofAttestation, ErrorCode>(ErrorCode::NotFound),
{
}

/// Event correspondence: a successful write appends exactly one notification,
/// the one that matches the stored record; a refused write appends none and
/// changes nothing.
pub proof fn lemma_event_correspondence(
    l: Ledger,
    ctx: AttestProof,
    claim_id: [u8; 32],
    proof_hash: [u8; 32],
    public_inputs: [u64; 4],
    refund_signature: [u8; 64],
)
    ensures
        ({
            let (l1, r) = attest_spec(l, ctx, claim_id, proof_hash, public_inputs, refund_signature);
            match r {
                Ok(rec) => {
                    &&& l1.events == l.events.push(event_of(rec))
                    &&& l1.records[slot_address(l.program_id, claim_id@)] == rec
                    &&& event_of(rec).payout_amount == public_inputs[3]
                },
                Err(_) => l1 == l,
            }
        }),
{
}

/// A write keeps the ledger well formed: the new record lies at the slot that
/// its claim and derivation parameter reproduce.
pub proof fn lemma_attest_preserves_wf(
    l: Ledger,
    ctx: AttestProof,
    claim_id: [u8; 32],
    proof_hash: [u8; 32],
    public_inputs: [u64; 4],
    refund_signature: [u8; 64],
)
    requires
        l.wf(),
    ensures
        attest_spec(l, ctx, claim_id, proof_hash, public_inputs, refund_signature).0.wf(),
{
}

} // verus!
