//! The settlement protocol: terminal fund release against Merkle
//! authorization.
//!
//! After a battle's end time, the commitment verifier, the escrow
//! vaults and the lifecycle predicates come together here: a claim is
//! paid exactly when the battle is over, the claimant qualifies, and the
//! supplied proof folds to the currently trusted root. The vault's own
//! authority signs the outbound transfer — callers only ever trigger
//! it through these two operations.

use vstd::prelude::*;

use crate::battle::Battle;
use crate::betting::Bet;
use crate::config::GlobalState;
use crate::errors::ErrorCode;
use crate::escrow::TokenAccount;
use crate::escrow::Vault;
use crate::events::BetWinningsClaimed;
use crate::events::WinningsClaimed;
use crate::merkle::digests_view;
use crate::merkle::proof_accepted;
use crate::merkle::verify_merkle_proof;

verus! {

/// Why a winner's claim would be refused, or `None` when it pays: the
/// checks run in this order, so the first failing one names the error.
pub open spec fn claim_winnings_error(
    b: Battle,
    winner: u64,
    root: Seq<u8>,
    siblings: Seq<Seq<u8>>,
    leaf: Seq<u8>,
    now: i64,
    vault_funds: u64,
    winner_balance: u64,
    amount: u64,
) -> Option<ErrorCode> {
    if now <= b.end_time {
        Some(ErrorCode::BattleNotEnded)
    } else if !b.players@.contains(winner) {
        Some(ErrorCode::NotParticipant)
    } else if !proof_accepted(siblings, root, leaf) {
        Some(ErrorCode::InvalidMerkleProof)
    } else if vault_funds < amount {
        Some(ErrorCode::InsufficientFunds)
    } else if winner_balance + amount > u64::MAX {
        Some(ErrorCode::AmountOverflow)
    } else {
        None
    }
}

/// Pays `amount` from the battle vault to a participant whose leaf the
/// trusted root authorizes. Nothing records that a particular leaf was
/// already paid: a second call with the same valid proof succeeds again
/// and draws the vault down further — a known gap of this protocol,
/// unlike the bet-claim path, which flips a claimed flag. Integrators
/// who need idempotent winner payouts must keep a consumed-leaf set at
/// the edge.
pub fn claim_winnings(
    battle: &Battle,
    battle_id: u64,
    global_state: &GlobalState,
    vault: &mut Vault,
    winner: u64,
    winner_account: &mut TokenAccount,
    merkle_proof: &Vec<[u8; 32]>,
    amount: u64,
    leaf_hash: [u8; 32],
    now: i64,
) -> (r: Result<WinningsClaimed, ErrorCode>)
    ensures
        r is Ok <==> claim_winnings_error(
            *battle,
            winner,
            global_state.merkle_root@,
            digests_view(merkle_proof@),
            leaf_hash@,
            now,
            old(vault).spec_funds(),
            old(winner_account).balance,
            amount,
        ) is None,
        r matches Err(e) ==> Some(e) == claim_winnings_error(
            *battle,
            winner,
            global_state.merkle_root@,
            digests_view(merkle_proof@),
            leaf_hash@,
            now,
            old(vault).spec_funds(),
            old(winner_account).balance,
            amount,
        ) && *final(vault) == *old(vault) && *final(winner_account) == *old(winner_account),
        r matches Ok(ev) ==> {
            &&& final(vault).spec_funds() == old(vault).spec_funds() - amount
            &&& final(winner_account).balance == old(winner_account).balance + amount
            &&& ev == (WinningsClaimed { battle: battle_id, winner, amount })
        },
        final(vault).spec_funds() + final(winner_account).balance == old(vault).spec_funds() + old(winner_account).balance,
{
    if now <= battle.end_time {
        return Err(ErrorCode::BattleNotEnded);
    }
    if !battle.has_player(winner) {
        return Err(ErrorCode::NotParticipant);
    }
    if !verify_merkle_proof(merkle_proof, global_state.merkle_root, leaf_hash) {
        return Err(ErrorCode::InvalidMerkleProof);
    }
    if vault.balance() < amount {
        return Err(ErrorCode::InsufficientFunds);
    }
    if winner_account.balance > u64::MAX - amount {
        return Err(ErrorCode::AmountOverflow);
    }
    vault.pay_out(winner_account, amount);
    Ok(WinningsClaimed { battle: battle_id, winner, amount })
}

/// Why a bettor's claim would be refused, or `None` when it pays: the
/// checks run in this order, so the first failing one names the error.
pub open spec fn claim_bet_error(
    b: Battle,
    bet: Bet,
    bettor: u64,
    root: Seq<u8>,
    siblings: Seq<Seq<u8>>,
    leaf: Seq<u8>,
    now: i64,
    vault_funds: u64,
    bettor_balance: u64,
    payout_amount: u64,
) -> Option<ErrorCode> {
    if now <= b.end_time {
        Some(ErrorCode::BattleNotEnded)
    } else if bet.bettor != bettor {
        Some(ErrorCode::NotBetOwner)
    } else if bet.is_claimed {
        Some(ErrorCode::AlreadyClaimed)
    } else if !proof_accepted(siblings, root, leaf) {
        Some(ErrorCode::InvalidMerkleProof)
    } else if vault_funds < payout_amount {
        Some(ErrorCode::InsufficientFunds)
    } else if bettor_balance + payout_amount > u64::MAX {
        Some(ErrorCode::AmountOverflow)
    } else {
        None
    }
}

/// Pays a bettor out of the betting vault against a Merkle
/// authorization, at most once per bet record: the claimed flag flips
/// exactly on the paying call, and a repeat claim is refused as already
/// claimed. The payout amount was computed off-chain; this core only
/// authorizes it.
pub fn claim_bet_winnings(
    battle: &Battle,
    battle_id: u64,
    global_state: &GlobalState,
    bet: &mut Bet,
    betting_vault: &mut Vault,
    bettor: u64,
    bettor_account: &mut TokenAccount,
    merkle_proof: &Vec<[u8; 32]>,
    payout_amount: u64,
    leaf_hash: [u8; 32],
    now: i64,
) -> (r: Result<BetWinningsClaimed, ErrorCode>)
    ensures
        r is Ok <==> claim_bet_error(
            *battle,
            *old(bet),
            bettor,
            global_state.merkle_root@,
            digests_view(merkle_proof@),
            leaf_hash@,
            now,
            old(betting_vault).spec_funds(),
            old(bettor_account).balance,
            payout_amount,
        ) is None,
        r matches Err(e) ==> Some(e) == claim_bet_error(
            *battle,
            *old(bet),
            bettor,
            global_state.merkle_root@,
            digests_view(merkle_proof@),
            leaf_hash@,
            now,
            old(betting_vault).spec_funds(),
            old(bettor_account).balance,
            payout_amount,
        ) && *final(bet) == *old(bet) && *final(betting_vault) == *old(betting_vault) && *final(bettor_account) == *old(bettor_account),
        r matches Ok(ev) ==> {
            &&& final(bet).is_claimed == true
            &&& final(bet).bettor == old(bet).bettor
            &&& final(bet).battle == old(bet).battle
            &&& final(bet).predicted_winner == old(bet).predicted_winner
            &&& final(bet).amount == old(bet).amount
            &&& final(betting_vault).spec_funds() == old(betting_vault).spec_funds()
                - payout_amount
            &&& final(bettor_account).balance == old(bettor_account).balance + payout_amount
            &&& ev == (BetWinningsClaimed { battle: battle_id, bettor, amount: payout_amount })
        },
        final(betting_vault).spec_funds() + final(bettor_account).balance == old(betting_vault).spec_funds() + old(bettor_account).balance,
{
    if now <= battle.end_time {
        return Err(ErrorCode::BattleNotEnded);
    }
    if bet.bettor != bettor {
        return Err(ErrorCode::NotBetOwner);
    }
    if bet.is_claimed {
        return Err(ErrorCode::AlreadyClaimed);
    }
    if !verify_merkle_proof(merkle_proof, global_state.merkle_root, leaf_hash) {
        return Err(ErrorCode::InvalidMerkleProof);
    }
    if betting_vault.balance() < payout_amount {
        return Err(ErrorCode::InsufficientFunds);
    }
    if bettor_account.balance > u64::MAX - payout_amount {
        return Err(ErrorCode::AmountOverflow);
    }
    bet.is_claimed = true;
    betting_vault.pay_out(bettor_account, payout_amount);
    Ok(BetWinningsClaimed { battle: battle_id, bettor, amount: payout_amount })
}

} // verus!
