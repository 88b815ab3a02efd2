use anchor_lang::solana_program::pubkey::Pubkey;
use x402_attestation::address::{attestation_address, same_bytes};
use x402_attestation::record::{AttestProof, ErrorCode, ProofAttestation, ProofAttested, QueryAttestation};
use x402_attestation::store::AttestationStore;

const PROGRAM: [u8; 32] = [7u8; 32];
const ALICE: [u8; 32] = [0xA1u8; 32];
const NOW: i64 = 1_700_000_000;

fn signed(authority: [u8; 32], now: i64) -> AttestProof {
    AttestProof { authority, authority_signed: true, unix_timestamp: now }
}

fn query(store: &AttestationStore, claim_id: [u8; 32]) -> Result<ProofAttestation, ErrorCode> {
    store.query_attestation(&QueryAttestation { claim_id })
}

#[test]
fn concrete_scenario() {
    let mut store = AttestationStore::new(PROGRAM);
    let claim = [0x01u8; 32];
    let first = store
        .attest_claim_proof(&signed(ALICE, NOW), claim, [0xAAu8; 32], [1, 500, 128, 1_000_000], [0xBBu8; 64])
        .unwrap();
    assert_eq!(first.attested_at, NOW);
    assert_eq!(first.attester, ALICE);
    let second = store.attest_claim_proof(&signed(ALICE, NOW + 5), claim, [0xAAu8; 32], [0, 200, 64, 0], [0xBBu8; 64]);
    assert_eq!(second, Err(ErrorCode::AttestationExists));
    let read = query(&store, claim).unwrap();
    assert_eq!(read.payout_amount(), 1_000_000);
    assert_eq!(read, first);
}

#[test]
fn write_once_keeps_first_record() {
    let mut store = AttestationStore::new(PROGRAM);
    let claim = [0x42u8; 32];
    let first = store.attest_claim_proof(&signed(ALICE, NOW), claim, [1u8; 32], [1, 2, 3, 4], [2u8; 64]).unwrap();
    let other = [0xB0u8; 32];
    let again = store.attest_claim_proof(&signed(other, NOW + 1), claim, [9u8; 32], [9, 9, 9, 9], [9u8; 64]);
    assert_eq!(again, Err(ErrorCode::AttestationExists));
    assert_eq!(query(&store, claim), Ok(first));
    assert_eq!(store.events().len(), 1);
}

#[test]
fn read_after_write_returns_inputs() {
    let mut store = AttestationStore::new(PROGRAM);
    let claim = [0x10u8; 32];
    let mut sig = [0u8; 64];
    for (i, b) in sig.iter_mut().enumerate() {
        *b = i as u8;
    }
    let rec = store.attest_claim_proof(&signed(ALICE, NOW), claim, [0x33u8; 32], [0, 404, 12, 0], sig).unwrap();
    let read = query(&store, claim).unwrap();
    assert_eq!(read.claim_id, claim);
    assert_eq!(read.proof_hash, [0x33u8; 32]);
    assert_eq!(read.public_inputs, [0, 404, 12, 0]);
    assert_eq!(read.refund_tx_sig, sig);
    assert_eq!(read.attested_at, NOW);
    assert_eq!(read.attester, ALICE);
    assert_eq!(read, rec);
}

#[test]
fn unknown_claim_is_not_found() {
    let mut store = AttestationStore::new(PROGRAM);
    assert_eq!(query(&store, [0x05u8; 32]), Err(ErrorCode::NotFound));
    store.attest_claim_proof(&signed(ALICE, NOW), [0x06u8; 32], [1u8; 32], [1, 1, 1, 1], [1u8; 64]).unwrap();
    assert_eq!(query(&store, [0x05u8; 32]), Err(ErrorCode::NotFound));
}

#[test]
fn event_matches_stored_record() {
    let mut store = AttestationStore::new(PROGRAM);
    let claim = [0x21u8; 32];
    let rec = store.attest_claim_proof(&signed(ALICE, NOW), claim, [0x44u8; 32], [1, 200, 10, 777], [5u8; 64]).unwrap();
    let expected = ProofAttested { claim_id: claim, proof_hash: [0x44u8; 32], payout_amount: 777, attested_at: NOW };
    assert_eq!(store.events(), &[expected][..]);
    assert_eq!(rec.event(), expected);
}

#[test]
fn failed_writes_emit_nothing() {
    let mut store = AttestationStore::new(PROGRAM);
    let claim = [0x22u8; 32];
    store.attest_claim_proof(&signed(ALICE, NOW), claim, [1u8; 32], [1, 2, 3, 4], [1u8; 64]).unwrap();
    let before: Vec<ProofAttested> = store.events().to_vec();
    let _ = store.attest_claim_proof(&signed(ALICE, NOW), claim, [2u8; 32], [5, 6, 7, 8], [2u8; 64]);
    let unsigned = AttestProof { authority: ALICE, authority_signed: false, unix_timestamp: NOW };
    let _ = store.attest_claim_proof(&unsigned, [0x23u8; 32], [2u8; 32], [5, 6, 7, 8], [2u8; 64]);
    assert_eq!(store.events(), &before[..]);
}

#[test]
fn unsigned_write_is_unauthorized() {
    let mut store = AttestationStore::new(PROGRAM);
    let claim = [0x30u8; 32];
    let unsigned = AttestProof { authority: ALICE, authority_signed: false, unix_timestamp: NOW };
    let r = store.attest_claim_proof(&unsigned, claim, [1u8; 32], [1, 2, 3, 4], [1u8; 64]);
    assert_eq!(r, Err(ErrorCode::Unauthorized));
    assert_eq!(query(&store, claim), Err(ErrorCode::NotFound));
    assert!(store.events().is_empty());
}

#[test]
fn distinct_claims_are_independent() {
    let mut store = AttestationStore::new(PROGRAM);
    let a = store.attest_claim_proof(&signed(ALICE, NOW), [0x01u8; 32], [1u8; 32], [1, 200, 1, 10], [1u8; 64]).unwrap();
    let b = store.attest_claim_proof(&signed(ALICE, NOW + 1), [0x02u8; 32], [2u8; 32], [1, 200, 2, 20], [2u8; 64]).unwrap();
    assert_eq!(query(&store, [0x01u8; 32]), Ok(a));
    assert_eq!(query(&store, [0x02u8; 32]), Ok(b));
    assert_eq!(store.events().len(), 2);
}

#[test]
fn zero_inputs_are_accepted() {
    let mut store = AttestationStore::new(PROGRAM);
    let rec = store.attest_claim_proof(&signed([0u8; 32], 0), [0u8; 32], [0u8; 32], [0, 0, 0, 0], [0u8; 64]).unwrap();
    assert_eq!(rec.payout_amount(), 0);
    assert_eq!(query(&store, [0u8; 32]), Ok(rec));
}

#[test]
fn extreme_values_are_stored_verbatim() {
    let mut store = AttestationStore::new(PROGRAM);
    let inputs = [u64::MAX, u64::MAX, u64::MAX, u64::MAX];
    let rec = store.attest_claim_proof(&signed(ALICE, i64::MIN), [0xFFu8; 32], [0xFFu8; 32], inputs, [0xFFu8; 64]).unwrap();
    assert_eq!(rec.attested_at, i64::MIN);
    assert_eq!(query(&store, [0xFFu8; 32]).unwrap().public_inputs, inputs);
}

#[test]
fn address_matches_program_derivation() {
    let claim = [0x01u8; 32];
    let (addr, bump) = attestation_address(&PROGRAM, &claim).unwrap();
    let (expected, expected_bump) =
        Pubkey::find_program_address(&[b"attestation", claim.as_ref()], &Pubkey::new_from_array(PROGRAM));
    assert_eq!(addr, expected.to_bytes());
    assert_eq!(bump, expected_bump);
    assert_ne!(addr, claim);
    assert_ne!(addr, PROGRAM);
}

#[test]
fn address_is_deterministic() {
    let claim = [0x77u8; 32];
    assert_eq!(attestation_address(&PROGRAM, &claim), attestation_address(&PROGRAM, &claim));
    let other = attestation_address(&PROGRAM, &[0x78u8; 32]).unwrap();
    assert_ne!(attestation_address(&PROGRAM, &claim).unwrap().0, other.0);
    let elsewhere = attestation_address(&[8u8; 32], &claim).unwrap();
    assert_ne!(attestation_address(&PROGRAM, &claim).unwrap().0, elsewhere.0);
}

#[test]
fn record_bump_reproduces_address() {
    let mut store = AttestationStore::new(PROGRAM);
    let claim = [0x5Au8; 32];
    let rec = store.attest_claim_proof(&signed(ALICE, NOW), claim, [1u8; 32], [1, 2, 3, 4], [1u8; 64]).unwrap();
    let (addr, bump) = attestation_address(&PROGRAM, &claim).unwrap();
    assert_eq!(rec.bump, bump);
    let recreated = Pubkey::create_program_address(
        &[b"attestation", claim.as_ref(), &[rec.bump]],
        &Pubkey::new_from_array(PROGRAM),
    )
    .unwrap();
    assert_eq!(recreated.to_bytes(), addr);
}

#[test]
fn store_keeps_program_id() {
    let store = AttestationStore::new(PROGRAM);
    assert_eq!(store.program_id(), PROGRAM);
    assert!(store.events().is_empty());
}

#[test]
fn same_bytes_compares_all_positions() {
    let a = [3u8; 32];
    let mut b = [3u8; 32];
    assert!(same_bytes(&a, &b));
    b[31] = 4;
    assert!(!same_bytes(&a, &b));
    b[31] = 3;
    b[0] = 0;
    assert!(!same_bytes(&a, &b));
}
