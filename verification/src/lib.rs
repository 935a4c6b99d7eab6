//! A payment-settlement engine for a blockchain-hosted commerce protocol.
//!
//! A settlement accepts a buyer payment in one of two currencies, deducts a
//! protocol fee, splits the remainder between a merchant payout and a
//! token-buyback allocation, routes the buyback through an external liquidity
//! router, burns a fraction of the acquired token, and pays the merchant.
//! Every percentage split uses widened fixed-point arithmetic, every request is
//! validated against the on-file merchant registry before any value moves, and
//! a failure at any step leaves every balance unchanged.
//!
//! The chain-facing shell (account plumbing, cross-program invocations, the
//! router call itself) lives outside this crate; the engine here works on plain
//! values and an explicit ledger of the balances a settlement touches.

pub mod admin;
pub mod engine;
pub mod errors;
pub mod laws;
pub mod ledger;
pub mod math;
pub mod state;
