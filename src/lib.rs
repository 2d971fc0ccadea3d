//! Settlement core of a fixed-price asset marketplace: fee splitting, listing
//! custody, multisig-gated treasury release and balance-delta fee skimming.
//!
//! Every operation is a verified decision over snapshots of ledger state; it
//! returns the ledger actions to perform, which the host runs atomically.

pub mod config;
pub mod error;
pub mod fee;
pub mod ledger;
pub mod listing;
pub mod purchase;
pub mod swap;
pub mod transfer;
pub mod treasury;
pub mod types;
