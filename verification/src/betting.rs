//! The pari-mutuel betting pool: side bets by observers on a 1-vs-1
//! battle.
//!
//! Bets split by predicted outcome into two slot accumulators — slot 0
//! for the battle's first listed player, slot 1 for the second; the slot
//! is picked strictly by list position, never by comparing identities
//! generically. The pool is created lazily on the first bet. Payout odds
//! are computed off-chain and only authorized here later, through the
//! settlement protocol.

use vstd::prelude::*;

use crate::battle::Battle;
use crate::battle::BattleType;
use crate::errors::ErrorCode;
use crate::escrow::TokenAccount;
use crate::escrow::Vault;
use crate::events::BetPlaced;

verus! {

/// The aggregate side-bet state of one battle: at most one pool exists
/// per battle, and only for 1-vs-1 battles.
#[derive(Clone, Copy, Debug, PartialEq, Eq, Structural)]
pub struct BettingPool {
    pub battle: u64,
    pub total_pool: u64,
    pub bets_on_player_a: u64,
    pub bets_on_player_b: u64,
    pub is_settled: bool,
}

impl BettingPool {
    /// The pool's standing invariant: the total is exactly the two slot
    /// accumulators together.
    pub open spec fn wf(self) -> bool {
        self.total_pool as int == self.bets_on_player_a as int + self.bets_on_player_b as int
    }
}

/// One observer's bet; a bettor holds at most one per battle, which the
/// storage substrate enforces by refusing a second record at the same
/// (battle, bettor) key.
#[derive(Clone, Copy, Debug, PartialEq, Eq, Structural)]
pub struct Bet {
    pub bettor: u64,
    pub battle: u64,
    pub predicted_winner: u64,
    pub amount: u64,
    pub is_claimed: bool,
}

/// The pooled total of a lazily created pool: zero before the first bet.
pub open spec fn pool_total(p: Option<BettingPool>) -> int {
    match p {
        Some(q) => q.total_pool as int,
        None => 0,
    }
}

/// The slot-0 accumulator, zero before the first bet.
pub open spec fn pool_a(p: Option<BettingPool>) -> int {
    match p {
        Some(q) => q.bets_on_player_a as int,
        None => 0,
    }
}

/// The slot-1 accumulator, zero before the first bet.
pub open spec fn pool_b(p: Option<BettingPool>) -> int {
    match p {
        Some(q) => q.bets_on_player_b as int,
        None => 0,
    }
}

/// The settled flag, false before the first bet.
pub open spec fn pool_settled(p: Option<BettingPool>) -> bool {
    match p {
        Some(q) => q.is_settled,
        None => false,
    }
}

/// A lazily created pool is well formed once it exists.
pub open spec fn pool_wf(p: Option<BettingPool>) -> bool {
    match p {
        Some(q) => q.wf(),
        None => true,
    }
}

/// Why a bet would be refused, or `None` when it succeeds: the checks
/// run in this order, so the first failing one names the error. A
/// battle of kind `Friends` is refused before anything else is looked
/// at.
pub open spec fn place_bet_error(
    b: Battle,
    bettor: u64,
    predicted_winner: u64,
    bet_amount: u64,
    now: i64,
    pool: Option<BettingPool>,
    bettor_balance: u64,
    vault_funds: u64,
) -> Option<ErrorCode> {
    if b.battle_type != BattleType::OneVsOne {
        Some(ErrorCode::BettingOnlyFor1v1)
    } else if now >= b.end_time {
        Some(ErrorCode::BattleEnded)
    } else if b.current_players != 2 {
        Some(ErrorCode::BattleNotFull)
    } else if !b.players@.contains(predicted_winner) {
        Some(ErrorCode::InvalidPredictedWinner)
    } else if b.players@.contains(bettor) {
        Some(ErrorCode::ParticipantCannotBet)
    } else if bettor_balance < bet_amount {
        Some(ErrorCode::InsufficientFunds)
    } else if pool_total(pool) + bet_amount > u64::MAX || vault_funds + bet_amount > u64::MAX {
        Some(ErrorCode::AmountOverflow)
    } else {
        None
    }
}

/// Law: on a `Friends`-kind battle a bet always fails with the 1-vs-1
/// restriction, whatever else holds of the clock, the pool, the players
/// or the amounts.
pub proof fn lemma_friends_battle_refuses_bets(
    b: Battle,
    bettor: u64,
    predicted_winner: u64,
    bet_amount: u64,
    now: i64,
    pool: Option<BettingPool>,
    bettor_balance: u64,
    vault_funds: u64,
)
    requires
        b.battle_type == BattleType::Friends,
    ensures
        place_bet_error(b, bettor, predicted_winner, bet_amount, now, pool, bettor_balance, vault_funds)
            == Some(ErrorCode::BettingOnlyFor1v1),
{
}

/// Places a bet on a full, open 1-vs-1 battle: creates the pool on the
/// first bet, adds the amount to the total and to the slot of the
/// predicted player (by list position), builds the bet record, and
/// escrows the amount into the betting vault — all of it, or on any
/// refusal none of it.
pub fn place_bet(
    battle: &Battle,
    battle_id: u64,
    pool: &mut Option<BettingPool>,
    betting_vault: &mut Vault,
    bettor: u64,
    bettor_account: &mut TokenAccount,
    predicted_winner: u64,
    bet_amount: u64,
    now: i64,
) -> (r: Result<(Bet, BetPlaced), ErrorCode>)
    requires
        battle.wf(),
        pool_wf(*old(pool)),
        *old(pool) matches Some(q) ==> q.battle == battle_id,
    ensures
        pool_wf(*final(pool)),
        r is Ok <==> place_bet_error(
            *battle,
            bettor,
            predicted_winner,
            bet_amount,
            now,
            *old(pool),
            old(bettor_account).balance,
            old(betting_vault).spec_funds(),
        ) is None,
        r matches Err(e) ==> Some(e) == place_bet_error(
            *battle,
            bettor,
            predicted_winner,
            bet_amount,
            now,
            *old(pool),
            old(bettor_account).balance,
            old(betting_vault).spec_funds(),
        ) && *final(pool) == *old(pool) && *final(betting_vault) == *old(betting_vault) && *final(bettor_account) == *old(bettor_account),
        r matches Ok(out) ==> {
            &&& *final(pool) is Some
            &&& (*final(pool) matches Some(q) ==> q.battle == battle_id)
            &&& pool_total(*final(pool)) == pool_total(*old(pool)) + bet_amount
            &&& (predicted_winner == battle.players@[0] ==> pool_a(*final(pool)) == pool_a(
                *old(pool),
            ) + bet_amount && pool_b(*final(pool)) == pool_b(*old(pool)))
            &&& (predicted_winner != battle.players@[0] ==> pool_b(*final(pool)) == pool_b(
                *old(pool),
            ) + bet_amount && pool_a(*final(pool)) == pool_a(*old(pool)))
            &&& pool_settled(*final(pool)) == pool_settled(*old(pool))
            &&& out.0 == (Bet {
                bettor,
                battle: battle_id,
                predicted_winner,
                amount: bet_amount,
                is_claimed: false,
            })
            &&& out.1 == (BetPlaced { battle: battle_id, bettor, predicted_winner, amount: bet_amount })
            &&& final(betting_vault).spec_funds() == old(betting_vault).spec_funds() + bet_amount
            &&& final(bettor_account).balance == old(bettor_account).balance - bet_amount
        },
        final(betting_vault).spec_funds() + final(bettor_account).balance == old(betting_vault).spec_funds() + old(bettor_account).balance,
{
    if battle.battle_type != BattleType::OneVsOne {
        return Err(ErrorCode::BettingOnlyFor1v1);
    }
    if now >= battle.end_time {
        return Err(ErrorCode::BattleEnded);
    }
    if battle.current_players != 2 {
        return Err(ErrorCode::BattleNotFull);
    }
    if !battle.has_player(predicted_winner) {
        return Err(ErrorCode::InvalidPredictedWinner);
    }
    if battle.has_player(bettor) {
        return Err(ErrorCode::ParticipantCannotBet);
    }
    if bettor_account.balance < bet_amount {
        return Err(ErrorCode::InsufficientFunds);
    }
    let snapshot: Option<BettingPool> = *pool;
    let (cur_total, cur_a, cur_b, cur_settled): (u64, u64, u64, bool) = match snapshot {
        Some(q) => (q.total_pool, q.bets_on_player_a, q.bets_on_player_b, q.is_settled),
        None => (0u64, 0u64, 0u64, false),
    };
    if bet_amount > u64::MAX - cur_total {
        return Err(ErrorCode::AmountOverflow);
    }
    if !betting_vault.can_deposit(bet_amount) {
        return Err(ErrorCode::AmountOverflow);
    }
    betting_vault.deposit(bettor_account, bet_amount);
    let goes_to_a = predicted_winner == battle.players[0];
    let updated = BettingPool {
        battle: battle_id,
        total_pool: cur_total + bet_amount,
        bets_on_player_a: if goes_to_a {
            cur_a + bet_amount
        } else {
            cur_a
        },
        bets_on_player_b: if goes_to_a {
            cur_b
        } else {
            cur_b + bet_amount
        },
        is_settled: cur_settled,
    };
    *pool = Some(updated);
    let bet = Bet { bettor, battle: battle_id, predicted_winner, amount: bet_amount, is_claimed: false };
    let event = BetPlaced { battle: battle_id, bettor, predicted_winner, amount: bet_amount };
    Ok((bet, event))
}

} // verus!
