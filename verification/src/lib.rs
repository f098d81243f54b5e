//! Escrowed wager battles with pari-mutuel side bets.
//!
//! A battle pools a fixed stake from each joined player into an escrow
//! vault; observers may bet on the outcome of a two-player battle through
//! a separate pari-mutuel pool. After the battle ends, payouts are
//! authorized by a Merkle inclusion proof checked against a root that only
//! the administrator can set. This crate holds the settlement core as a
//! pure state machine: the ledger that persists accounts, the token
//! transfer rails, and the clock are collaborators at the edge, handed in
//! as plain values.

pub mod battle;
pub mod betting;
pub mod config;
pub mod errors;
pub mod escrow;
pub mod events;
pub mod hash;
pub mod merkle;
pub mod settlement;
