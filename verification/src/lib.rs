//! A ledger-resident multisignature wallet engine.
//!
//! The library models the authorization core of a smart-contract wallet:
//! the wallet record, its guardian registry, the proposal/approval state
//! machine, the replay-protection protocol of the direct-execute path, and
//! the canonical message binding that ties an externally verified signature
//! to one specific on-ledger action.  Host-ledger concerns (account storage,
//! address derivation, the signature-verification precompile, the clock) are
//! handed in as plain values by the caller.

pub mod bridge;
pub mod digest;
pub mod encode;
pub mod errors;
pub mod guardians;
pub mod laws;
pub mod proposals;
pub mod security;
pub mod state;
pub mod wallet;
