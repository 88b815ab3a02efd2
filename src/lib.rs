//! A write-once ledger of attestations for adjudicated fraud claims.
//!
//! Each claim owns exactly one storage slot, whose address is derived from the
//! claim identifier and the ledger's program identity alone. A record is written
//! into its slot once and can be read back by anyone, forever.
pub mod address;
pub mod laws;
pub mod record;
pub mod store;
