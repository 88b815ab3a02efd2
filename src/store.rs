//! The attestation store: one write-once slot per claim, addressed by derivation.
use vstd::prelude::*;
use crate::address::{attestation_address, same_bytes, slot_of};
use crate::record::{event_of, AttestProof, ErrorCode, ProofAttestation, ProofAttested, QueryAttestation};

verus! {

/// Abstract state of a store: its program identity, the records by slot
/// address, and the notifications published so far, oldest first.
pub struct Ledger {
    pub program_id: Seq<u8>,
    pub records: Map<Seq<u8>, ProofAttestation>,
    pub events: Seq<ProofAttested>,
}

impl Ledger {
    /// Every record lies at the slot that its claim identifier and its
    /// derivation parameter reproduce.
    pub open spec fn wf(self) -> bool {
        forall|a: Seq<u8>| #[trigger] self.records.contains_key(a)
            ==> slot_of(self.program_id, self.records[a].claim_id@) == Some((a, self.records[a].bump))
    }
}

/// The record that a write creates from its inputs once the slot is known.
pub open spec fn new_record(
    ctx: AttestProof,
    claim_id: [u8; 32],
    proof_hash: [u8; 32],
    public_inputs: [u64; 4],
    refund_signature: [u8; 64],
    bump: u8,
) -> ProofAttestation {
    ProofAttestation {
        claim_id,
        proof_hash,
        public_inputs,
        refund_tx_sig: refund_signature,
        attested_at: ctx.unix_timestamp,
        attester: ctx.authority,
        bump,
    }
}

/// Outcome of a write on ledger `l`: the ledger after it and the result.
pub open spec fn attest_spec(
    l: Ledger,
    ctx: AttestProof,
    claim_id: [u8; 32],
    proof_hash: [u8; 32],
    public_inputs: [u64; 4],
    refund_signature: [u8; 64],
) -> (Ledger, Result<ProofAttestation, ErrorCode>) {
    if !ctx.authority_signed {
        (l, Err(ErrorCode::Unauthorized))
    } else {
        match slot_of(l.program_id, claim_id@) {
            None => (l, Err(ErrorCode::MalformedInput)),
            Some((addr, bump)) => if l.records.contains_key(addr) {
                (l, Err(ErrorCode::AttestationExists))
            } else {
                let rec = new_record(ctx, claim_id, proof_hash, public_inputs, refund_signature, bump);
                (
                    Ledger {
                        program_id: l.program_id,
                        records: l.records.insert(addr, rec),
                        events: l.events.push(event_of(rec)),
                    },
                    Ok(rec),
                )
            },
        }
    }
}

/// Outcome of a read of the slot of `claim_id` on ledger `l`.
pub open spec fn query_spec(l: Ledger, claim_id: [u8; 32]) -> Result<ProofAttestation, ErrorCode> {
    match slot_of(l.program_id, claim_id@) {
        Some((addr, _)) => if l.records.contains_key(addr) {
            Ok(l.records[addr])
        } else {
            Err(ErrorCode::NotFound)
        },
        None => Err(ErrorCode::NotFound),
    }
}

/// A store of attestations under one program identity.
pub struct AttestationStore {
    program_id: [u8; 32],
    slots: Vec<([u8; 32], ProofAttestation)>,
    events: Vec<ProofAttested>,
    records: Ghost<Map<Seq<u8>, ProofAttestation>>,
}

impl View for AttestationStore {
    type V = Ledger;

    closed spec fn view(&self) -> Ledger {
        Ledger { program_id: self.program_id@, records: self.records@, events: self.events@ }
    }
}

impl AttestationStore {
    /// The slot vector holds each address once and exactly the records of the
    /// abstract map, and the abstract ledger is well formed.
    pub closed spec fn wf(&self) -> bool {
        &&& forall|i: int, j: int|
            0 <= i < j < self.slots@.len() ==> #[trigger] self.slots@[i].0@ != #[trigger] self.slots@[j].0@
        &&& forall|i: int| 0 <= i < self.slots@.len() ==> {
            &&& #[trigger] self.records@.contains_key(self.slots@[i].0@)
            &&& self.records@[self.slots@[i].0@] == self.slots@[i].1
        }
        &&& forall|a: Seq<u8>| #[trigger] self.records@.contains_key(a)
            ==> exists|i: int| 0 <= i < self.slots@.len() && #[trigger] self.slots@[i].0@ == a
        &&& self@.wf()
    }

    /// An empty store for the program with key `program_id`.
    pub fn new(program_id: [u8; 32]) -> (s: Self)
        ensures
            s.wf(),
            s@.program_id == program_id@,
            s@.records == Map::<Seq<u8>, ProofAttestation>::empty(),
            s@.events == Seq::<ProofAttested>::empty(),
    {
        AttestationStore {
            program_id,
            slots: Vec::new(),
            events: Vec::new(),
            records: Ghost(Map::empty()),
        }
    }

    /// Key of the program that owns the store's slots.
    pub fn program_id(&self) -> (r: [u8; 32])
        ensures
            r@ == self@.program_id,
    {
        self.program_id
    }

    /// Notifications published so far, oldest first.
    pub fn events(&self) -> (r: &[ProofAttested])
        ensures
            r@ == self@.events,
    {
        self.events.as_slice()
    }

    /// Position of the slot at `addr` in the slot vector, if it is occupied.
    fn find(&self, addr: &[u8; 32]) -> (r: Option<usize>)
        requires
            self.wf(),
        ensures
            match r {
                Some(i) => i < self.slots@.len() && self.slots@[i as int].0@ == addr@
                    && self@.records.contains_key(addr@)
                    && self@.records[addr@] == self.slots@[i as int].1,
                None => !self@.records.contains_key(addr@),
            },
    {
        let mut i: usize = 0;
        while i < self.slots.len()
            invariant
                self.wf(),
                0 <= i <= self.slots@.len(),
                forall|j: int| 0 <= j < i ==> self.slots@[j].0@ != addr@,
            decreases self.slots@.len() - i,
        {
            if same_bytes(&self.slots[i].0, addr) {
                assert(self.records@.contains_key(self.slots@[i as int].0@));
                return Some(i);
            }
            i = i + 1;
        }
        None
    }

    /// Writes the attestation of `claim_id` into its slot and publishes its
    /// notification. Refused when the authority did not sign, when the claim
    /// yields no slot address, or when the slot is already occupied; a refused
    /// write changes nothing.
    pub fn attest_claim_proof(
        &mut self,
        ctx: &AttestProof,
        claim_id: [u8; 32],
        proof_hash: [u8; 32],
        public_inputs: [u64; 4],
        refund_signature: [u8; 64],
    ) -> (r: Result<ProofAttestation, ErrorCode>)
        requires
            old(self).wf(),
        ensures
            final(self).wf(),
            (final(self)@, r) == attest_spec(old(self)@, *ctx, claim_id, proof_hash, public_inputs, refund_signature),
    {
        if !ctx.authority_signed {
            return Err(ErrorCode::Unauthorized);
        }
        let (addr, bump) = match attestation_address(&self.program_id, &claim_id) {
            Some(found) => found,
            None => {
                return Err(ErrorCode::MalformedInput);
            },
        };
        if self.find(&addr).is_some() {
            return Err(ErrorCode::AttestationExists);
        }
        let rec = ProofAttestation {
            claim_id,
            proof_hash,
            public_inputs,
            refund_tx_sig: refund_signature,
            attested_at: ctx.unix_timestamp,
            attester: ctx.authority,
            bump,
        };
        let ghost old_slots = self.slots@;
        self.slots.push((addr, rec));
        self.records = Ghost(self.records@.insert(addr@, rec));
        self.events.push(rec.event());
        assert forall|a: Seq<u8>| #[trigger] self.records@.contains_key(a) implies exists|i: int|
            0 <= i < self.slots@.len() && #[trigger] self.slots@[i].0@ == a by {
            if a == addr@ {
                assert(self.slots@[old_slots.len() as int].0@ == a);
            } else {
                let i = choose|i: int| 0 <= i < old_slots.len() && #[trigger] old_slots[i].0@ == a;
                assert(self.slots@[i].0@ == a);
            }
        }
        Ok(rec)
    }

    /// Reads the record in the slot of the claim; `NotFound` where the slot is
    /// empty or the claim yields no slot address.
    pub fn query_attestation(&self, ctx: &QueryAttestation) -> (r: Result<ProofAttestation, ErrorCode>)
        requires
            self.wf(),
        ensures
            r == query_spec(self@, ctx.claim_id),
    {
        match attestation_address(&self.program_id, &ctx.claim_id) {
            Some((addr, _)) => match self.find(&addr) {
                Some(i) => Ok(self.slots[i].1),
                None => Err(ErrorCode::NotFound),
            },
            None => Err(ErrorCode::NotFound),
        }
    }
}

} // verus!
