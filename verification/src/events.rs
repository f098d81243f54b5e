//! Structured records emitted by every state-changing operation.
//!
//! Emission is fire-and-forget: an event reports what happened and has no
//! effect on the state machine. The edge that hosts the core forwards
//! them to external observers.

use vstd::prelude::*;

use crate::battle::BattleType;

verus! {

/// A battle was created and the creator's stake escrowed.
#[derive(Clone, Copy, Debug, PartialEq, Eq)]
pub struct BattleCreated {
    pub battle: u64,
    pub creator: u64,
    pub battle_type: BattleType,
    pub league_amount: u64,
    pub end_time: i64,
}

/// A player joined a battle and matched the stake.
#[derive(Clone, Copy, Debug, PartialEq, Eq)]
pub struct PlayerJoined {
    pub battle: u64,
    pub player: u64,
    pub total_players: u8,
}

/// A participant recorded an anti-cheat state commitment.
#[derive(Clone, Copy, Debug, PartialEq, Eq)]
pub struct PlayerCommitted {
    pub battle: u64,
    pub player: u64,
    pub wallet_balance_hash: [u8; 32],
    pub timestamp: i64,
}

/// A winner was paid out of the battle vault.
#[derive(Clone, Copy, Debug, PartialEq, Eq)]
pub struct WinningsClaimed {
    pub battle: u64,
    pub winner: u64,
    pub amount: u64,
}

/// An observer staked a bet on one of the two players.
#[derive(Clone, Copy, Debug, PartialEq, Eq)]
pub struct BetPlaced {
    pub battle: u64,
    pub bettor: u64,
    pub predicted_winner: u64,
    pub amount: u64,
}

/// A bettor was paid out of the betting vault.
#[derive(Clone, Copy, Debug, PartialEq, Eq)]
pub struct BetWinningsClaimed {
    pub battle: u64,
    pub bettor: u64,
    pub amount: u64,
}

/// The administrator replaced the trusted Merkle root.
#[derive(Clone, Copy, Debug, PartialEq, Eq)]
pub struct MerkleRootUpdated {
    pub merkle_root: [u8; 32],
    pub admin: u64,
}

} // verus!
