//! Settlement and reputation core of a service marketplace.
//!
//! The crate escrows a payment per service request, drives the request
//! through its lifecycle, splits settled funds among payees by percentage,
//! and keeps a running reputation score per provider.

pub mod agent_registry;
pub mod change;
pub mod ledger;
pub mod marketplace_escrow;
pub mod pubkey;
pub mod reputation_system;
pub mod royalty_splitter;
pub mod split;
pub mod text;
