//! An owner-gated non-fungible-token contract: a small set of metadata fields
//! (title, description, media, copies) that only the contract's own account may
//! update, and a mint entry point that snapshots those fields into each newly
//! minted token's metadata. Token bookkeeping is delegated to the platform's
//! standard NFT ledger.

pub mod account;
pub mod contract;
pub mod error;
pub mod host;
pub mod laws;
pub mod ledger;
pub mod metadata;
pub mod token;
