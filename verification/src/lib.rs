//! A ledger-resident crowdfunding and peer-review escrow engine.
//!
//! Authors register research proposals, the public funds them with tokens
//! held in escrow, funded authors withdraw once a goal is met, and a
//! weighted voting mechanism records community sentiment.
//!
//! The engine is the core state machine only: it enforces funding
//! invariants, fee accounting, deadline policy, and authorization rules
//! across the global configuration, paper records, funding records, vote
//! records, and escrow balances. The surrounding account store, signature
//! checks, and the raw token-transfer primitive are external collaborators:
//! the caller reads the clock and token balances, hands the engine plain
//! values, and applies the transfers that the returned events describe.

pub mod errors;
pub mod events;
pub mod records;
pub mod status;

pub mod escrow;
pub mod laws;
pub mod papers;
pub mod platform;
pub mod token_account;
pub mod voting;
