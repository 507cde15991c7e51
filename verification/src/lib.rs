//! Checkpoint-based voting-power ledger and its consumers: an append-only
//! per-account time-series store, a delegation engine that keeps ledgers
//! consistent when power moves between accounts, a windowed vote-weight
//! lookup, and a guardian quorum verifier for externally-sourced proposals.

pub mod checkpoints;
pub mod codec;
pub mod collector;
pub mod delegation;
pub mod error;
pub mod global_config;
pub mod ids;
pub mod layout;
pub mod proposal;
pub mod quorum;
pub mod stake_account;
pub mod vesting;
pub mod vote_weight_window_lengths;
pub mod voting;

