//! The persisted attestation record, the notification published on each write,
//! the call contexts and the error taxonomy.
use vstd::prelude::*;

verus! {

/// One attestation, written once into the slot of its claim and never changed.
#[derive(Clone, Copy, Debug, PartialEq, Eq)]
pub struct ProofAttestation {
    /// Unique claim identifier.
    pub claim_id: [u8; 32],
    /// Content hash of the full off-chain proof.
    pub proof_hash: [u8; 32],
    /// `[fraud_detected, http_status, body_length, payout_amount]`.
    pub public_inputs: [u64; 4],
    /// Signature of the payout transaction.
    pub refund_tx_sig: [u8; 64],
    /// Time of the write, assigned by the ledger.
    pub attested_at: i64,
    /// Key of the authority that signed the write.
    pub attester: [u8; 32],
    /// Derivation parameter that, with `claim_id`, reproduces the slot address.
    pub bump: u8,
}

/// Notification published for every successful write.
#[derive(Clone, Copy, Debug, PartialEq, Eq)]
pub struct ProofAttested {
    pub claim_id: [u8; 32],
    pub proof_hash: [u8; 32],
    pub payout_amount: u64,
    pub attested_at: i64,
}

/// Why an operation on the ledger was refused.
#[derive(Clone, Copy, Debug, PartialEq, Eq, Structural)]
pub enum ErrorCode {
    /// The slot of the claim already holds a record.
    AttestationExists,
    /// The caller did not sign for the allocation of the slot.
    Unauthorized,
    /// No record is stored in the slot of the claim.
    NotFound,
    /// The claim identifier yields no usable slot address.
    MalformedInput,
}

/// What the caller of a write presents besides the record's fields.
#[derive(Clone, Copy, Debug, PartialEq, Eq)]
pub struct AttestProof {
    /// Key of the authority paying for the new slot.
    pub authority: [u8; 32],
    /// Whether the authority's signature over the call was verified.
    pub authority_signed: bool,
    /// Current wall-clock time in seconds since the Unix epoch.
    pub unix_timestamp: i64,
}

/// What a reader presents: only the claim whose slot is read.
#[derive(Clone, Copy, Debug, PartialEq, Eq)]
pub struct QueryAttestation {
    pub claim_id: [u8; 32],
}

/// The notification that corresponds to a stored record.
pub open spec fn event_of(r: ProofAttestation) -> ProofAttested {
    ProofAttested {
        claim_id: r.claim_id,
        proof_hash: r.proof_hash,
        payout_amount: r.public_inputs[3],
        attested_at: r.attested_at,
    }
}

impl ProofAttestation {
    /// Payout amount, the last of the public inputs.
    pub fn payout_amount(&self) -> (r: u64)
        ensures
            r == self.public_inputs[3],
    {
        self.public_inputs[3]
    }

    /// The notification that announces this record.
    pub fn event(&self) -> (e: ProofAttested)
        ensures
            e == event_of(*self),
    {
        ProofAttested {
            claim_id: self.claim_id,
            proof_hash: self.proof_hash,
            payout_amount: self.public_inputs[3],
            attested_at: self.attested_at,
        }
    }
}

} // verus!
