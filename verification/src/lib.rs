//! Core of a fair-launch token sale: a multi-phase, lottery-gated auction
//! that accepts ascending-price bids, checks an externally supplied lottery
//! bitmap against the number of bids accepted, and computes how much of the
//! pooled treasury the issuer may withdraw under an anti-rug schedule.
//!
//! Ledger custody (account creation, token transfer, mint and burn) is a
//! collaborator's job: every operation here is a pure or state-updating
//! function of plain values, with the current time and all balances passed
//! in by the host.

pub mod config;
pub mod errors;
pub mod laws;
pub mod lottery;
pub mod sale;
pub mod withdraw;
