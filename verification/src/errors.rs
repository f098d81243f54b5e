//! Error taxonomy shared by every operation of the settlement core.
//!
//! Every operation either fully applies or fails with exactly one of
//! these codes and leaves all state untouched.

use vstd::prelude::*;

verus! {

/// Why an operation was refused. Authorization (`NotAdmin`, `NotBetOwner`,
/// `NotParticipant`), lifecycle (`BattleNotActive`, `BattleFull`,
/// `BattleEnded`, `BattleNotEnded`, `BattleNotFull`), state conflict
/// (`AlreadyJoined`, `AlreadyClaimed`), input validation
/// (`InvalidDuration`, `BettingOnlyFor1v1`, `InvalidPredictedWinner`,
/// `ParticipantCannotBet`), proof validation (`InvalidMerkleProof`), and
/// the two failure modes of the modeled token rail (`InsufficientFunds`,
/// `AmountOverflow`).
#[derive(Clone, Copy, Debug, PartialEq, Eq, Structural)]
pub enum ErrorCode {
    NotAdmin,
    InvalidDuration,
    BattleNotActive,
    BattleFull,
    BattleEnded,
    AlreadyJoined,
    BattleNotEnded,
    NotParticipant,
    InvalidMerkleProof,
    BettingOnlyFor1v1,
    BattleNotFull,
    InvalidPredictedWinner,
    ParticipantCannotBet,
    NotBetOwner,
    AlreadyClaimed,
    InsufficientFunds,
    AmountOverflow,
}

} // verus!
