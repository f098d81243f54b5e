//! Side bets, the pari-mutuel pool, and Merkle-authorized payouts.

use kombat::battle::create_battle;
use kombat::battle::join_battle;
use kombat::battle::Battle;
use kombat::battle::BattleType;
use kombat::betting::place_bet;
use kombat::betting::BettingPool;
use kombat::config::initialize;
use kombat::config::set_merkle_root;
use kombat::config::GlobalState;
use kombat::errors::ErrorCode;
use kombat::escrow::TokenAccount;
use kombat::escrow::Vault;
use kombat::merkle::combine_digests;
use kombat::settlement::claim_bet_winnings;
use kombat::settlement::claim_winnings;

const DAY: i64 = 86400;

fn digest(first: u8) -> [u8; 32] {
    let mut d = [0u8; 32];
    d[0] = first;
    d
}

/// A full 1-vs-1 battle: players 1 and 2, stake 100, ending at day 3.
fn full_battle() -> (Battle, Vault) {
    let mut acct = TokenAccount { balance: 1000 };
    let (mut battle, mut vault, _) =
        create_battle(7, 1, BattleType::OneVsOne, 100, 3, 0, 0, &mut acct).unwrap();
    let mut acct2 = TokenAccount { balance: 1000 };
    join_battle(&mut battle, 7, &mut vault, 2, &mut acct2, 10).unwrap();
    (battle, vault)
}

/// A root that authorizes exactly `leaf` with the one-element proof
/// `[sibling]`.
fn authorized(leaf: [u8; 32], sibling: [u8; 32]) -> GlobalState {
    let mut gs = initialize(11, 254);
    let root = combine_digests(&leaf, &sibling);
    set_merkle_root(&mut gs, 11, root).unwrap();
    gs
}

#[test]
fn bets_split_by_predicted_slot() {
    let (battle, _vault) = full_battle();
    let mut pool: Option<BettingPool> = None;
    let mut betting_vault = Vault::new();
    let mut bettor_a = TokenAccount { balance: 100 };
    let (bet, ev) =
        place_bet(&battle, 7, &mut pool, &mut betting_vault, 30, &mut bettor_a, 1, 60, 20).unwrap();
    assert_eq!(bet.predicted_winner, 1);
    assert_eq!(bet.amount, 60);
    assert!(!bet.is_claimed);
    assert_eq!(ev.amount, 60);
    let mut bettor_b = TokenAccount { balance: 100 };
    place_bet(&battle, 7, &mut pool, &mut betting_vault, 31, &mut bettor_b, 2, 40, 20).unwrap();

    let p = pool.unwrap();
    assert_eq!(p.battle, 7);
    assert_eq!(p.total_pool, 100);
    assert_eq!(p.bets_on_player_a, 60);
    assert_eq!(p.bets_on_player_b, 40);
    assert_eq!(p.total_pool, p.bets_on_player_a + p.bets_on_player_b);
    assert!(!p.is_settled);
    assert_eq!(betting_vault.balance(), 100);
    assert_eq!(bettor_a.balance, 40);
    assert_eq!(bettor_b.balance, 60);

    // A further bettor after the end time is refused.
    let mut late = TokenAccount { balance: 100 };
    let r = place_bet(&battle, 7, &mut pool, &mut betting_vault, 32, &mut late, 1, 10, 3 * DAY);
    assert_eq!(r.unwrap_err(), ErrorCode::BattleEnded);
    assert_eq!(pool.unwrap().total_pool, 100);
}

#[test]
fn friends_battles_never_take_bets() {
    let mut acct = TokenAccount { balance: 600 };
    let (mut battle, mut vault, _) =
        create_battle(8, 1, BattleType::Friends, 100, 3, 0, 0, &mut acct).unwrap();
    let mut pool: Option<BettingPool> = None;
    let mut betting_vault = Vault::new();
    // Refused whatever else holds: open or ended, one player or several,
    // any predicted identity, even a participant bettor.
    let mut bettor = TokenAccount { balance: 100 };
    let r = place_bet(&battle, 8, &mut pool, &mut betting_vault, 30, &mut bettor, 1, 10, 20);
    assert_eq!(r.unwrap_err(), ErrorCode::BettingOnlyFor1v1);
    let mut funds = TokenAccount { balance: 100 };
    join_battle(&mut battle, 8, &mut vault, 2, &mut funds, 10).unwrap();
    let r = place_bet(&battle, 8, &mut pool, &mut betting_vault, 1, &mut bettor, 9, 0, 9 * DAY);
    assert_eq!(r.unwrap_err(), ErrorCode::BettingOnlyFor1v1);
    assert!(pool.is_none());
}

#[test]
fn bet_preconditions_each_name_their_error() {
    let mut acct = TokenAccount { balance: 1000 };
    let (open_battle, _v, _) =
        create_battle(7, 1, BattleType::OneVsOne, 100, 3, 0, 0, &mut acct).unwrap();
    let mut pool: Option<BettingPool> = None;
    let mut betting_vault = Vault::new();
    let mut bettor = TokenAccount { balance: 100 };
    // Not yet full.
    let r = place_bet(&open_battle, 7, &mut pool, &mut betting_vault, 30, &mut bettor, 1, 10, 20);
    assert_eq!(r.unwrap_err(), ErrorCode::BattleNotFull);

    let (battle, _vault) = full_battle();
    // Predicted winner not a player.
    let r = place_bet(&battle, 7, &mut pool, &mut betting_vault, 30, &mut bettor, 9, 10, 20);
    assert_eq!(r.unwrap_err(), ErrorCode::InvalidPredictedWinner);
    // A participant may not bet.
    let mut player_funds = TokenAccount { balance: 100 };
    let r = place_bet(&battle, 7, &mut pool, &mut betting_vault, 2, &mut player_funds, 1, 10, 20);
    assert_eq!(r.unwrap_err(), ErrorCode::ParticipantCannotBet);
    // Uncovered bet.
    let mut poor = TokenAccount { balance: 9 };
    let r = place_bet(&battle, 7, &mut pool, &mut betting_vault, 30, &mut poor, 1, 10, 20);
    assert_eq!(r.unwrap_err(), ErrorCode::InsufficientFunds);
    assert!(pool.is_none());
    assert_eq!(betting_vault.balance(), 0);
}

#[test]
fn winner_claim_needs_end_membership_and_proof() {
    let (battle, mut vault) = full_battle();
    let leaf = digest(10);
    let sibling = digest(20);
    let gs = authorized(leaf, sibling);
    let proof = vec![sibling];
    let mut winner = TokenAccount { balance: 0 };

    // Before the end nothing pays.
    let r = claim_winnings(&battle, 7, &gs, &mut vault, 1, &mut winner, &proof, 150, leaf, 10);
    assert_eq!(r.unwrap_err(), ErrorCode::BattleNotEnded);
    // Only participants are paid.
    let r = claim_winnings(&battle, 7, &gs, &mut vault, 9, &mut winner, &proof, 150, leaf, 4 * DAY);
    assert_eq!(r.unwrap_err(), ErrorCode::NotParticipant);
    // A proof that folds elsewhere is refused.
    let r =
        claim_winnings(&battle, 7, &gs, &mut vault, 1, &mut winner, &proof, 150, digest(9), 4 * DAY);
    assert_eq!(r.unwrap_err(), ErrorCode::InvalidMerkleProof);
    assert_eq!(vault.balance(), 200);
    assert_eq!(winner.balance, 0);

    let ev = claim_winnings(&battle, 7, &gs, &mut vault, 1, &mut winner, &proof, 150, leaf, 4 * DAY)
        .unwrap();
    assert_eq!(ev.amount, 150);
    assert_eq!(vault.balance(), 50);
    assert_eq!(winner.balance, 150);

    // The vault refuses to pay beyond what it holds.
    let r = claim_winnings(&battle, 7, &gs, &mut vault, 1, &mut winner, &proof, 60, leaf, 4 * DAY);
    assert_eq!(r.unwrap_err(), ErrorCode::InsufficientFunds);
}

#[test]
fn winner_claims_are_not_idempotent() {
    // The winnings path keeps no consumed-leaf record: the same valid
    // proof pays again and drains the vault further.
    let (battle, mut vault) = full_battle();
    let leaf = digest(10);
    let sibling = digest(20);
    let gs = authorized(leaf, sibling);
    let proof = vec![sibling];
    let mut winner = TokenAccount { balance: 0 };

    claim_winnings(&battle, 7, &gs, &mut vault, 1, &mut winner, &proof, 80, leaf, 4 * DAY).unwrap();
    claim_winnings(&battle, 7, &gs, &mut vault, 1, &mut winner, &proof, 80, leaf, 4 * DAY).unwrap();
    assert_eq!(winner.balance, 160);
    assert_eq!(vault.balance(), 40);
}

#[test]
fn bet_claims_pay_exactly_once() {
    let (battle, _vault) = full_battle();
    let mut pool: Option<BettingPool> = None;
    let mut betting_vault = Vault::new();
    let mut bettor = TokenAccount { balance: 100 };
    let (mut bet, _) =
        place_bet(&battle, 7, &mut pool, &mut betting_vault, 30, &mut bettor, 1, 60, 20).unwrap();

    let leaf = digest(10);
    let sibling = digest(20);
    let gs = authorized(leaf, sibling);
    let proof = vec![sibling];

    let ev = claim_bet_winnings(
        &battle, 7, &gs, &mut bet, &mut betting_vault, 30, &mut bettor, &proof, 55, leaf, 4 * DAY,
    )
    .unwrap();
    assert_eq!(ev.amount, 55);
    assert!(bet.is_claimed);
    assert_eq!(betting_vault.balance(), 5);
    assert_eq!(bettor.balance, 95);

    // The same valid proof a second time is refused: already claimed.
    let r = claim_bet_winnings(
        &battle, 7, &gs, &mut bet, &mut betting_vault, 30, &mut bettor, &proof, 55, leaf, 4 * DAY,
    );
    assert_eq!(r.unwrap_err(), ErrorCode::AlreadyClaimed);
    assert_eq!(betting_vault.balance(), 5);
    assert_eq!(bettor.balance, 95);
}

#[test]
fn bet_claims_check_owner_end_and_proof() {
    let (battle, _vault) = full_battle();
    let mut pool: Option<BettingPool> = None;
    let mut betting_vault = Vault::new();
    let mut bettor = TokenAccount { balance: 100 };
    let (mut bet, _) =
        place_bet(&battle, 7, &mut pool, &mut betting_vault, 30, &mut bettor, 1, 60, 20).unwrap();

    let leaf = digest(10);
    let sibling = digest(20);
    let gs = authorized(leaf, sibling);
    let proof = vec![sibling];

    let r = claim_bet_winnings(
        &battle, 7, &gs, &mut bet, &mut betting_vault, 30, &mut bettor, &proof, 55, leaf, 10,
    );
    assert_eq!(r.unwrap_err(), ErrorCode::BattleNotEnded);
    let r = claim_bet_winnings(
        &battle, 7, &gs, &mut bet, &mut betting_vault, 31, &mut bettor, &proof, 55, leaf, 4 * DAY,
    );
    assert_eq!(r.unwrap_err(), ErrorCode::NotBetOwner);
    let r = claim_bet_winnings(
        &battle, 7, &gs, &mut bet, &mut betting_vault, 30, &mut bettor, &proof, 55, digest(9),
        4 * DAY,
    );
    assert_eq!(r.unwrap_err(), ErrorCode::InvalidMerkleProof);
    assert!(!bet.is_claimed);
    assert_eq!(betting_vault.balance(), 60);
}

#[test]
fn claims_refuse_a_payee_balance_overflow() {
    let (battle, mut vault) = full_battle();
    let leaf = digest(10);
    let sibling = digest(20);
    let gs = authorized(leaf, sibling);
    let proof = vec![sibling];
    let mut saturated = TokenAccount { balance: u64::MAX };
    let r =
        claim_winnings(&battle, 7, &gs, &mut vault, 1, &mut saturated, &proof, 150, leaf, 4 * DAY);
    assert_eq!(r.unwrap_err(), ErrorCode::AmountOverflow);
    assert_eq!(vault.balance(), 200);
    assert_eq!(saturated.balance, u64::MAX);
}

#[test]
fn bets_refuse_a_pool_overflow() {
    let (battle, _vault) = full_battle();
    let mut pool: Option<BettingPool> = None;
    let mut betting_vault = Vault::new();
    let mut first = TokenAccount { balance: 1 };
    place_bet(&battle, 7, &mut pool, &mut betting_vault, 30, &mut first, 1, 1, 20).unwrap();
    let mut rich = TokenAccount { balance: u64::MAX };
    let r = place_bet(&battle, 7, &mut pool, &mut betting_vault, 31, &mut rich, 1, u64::MAX, 20);
    assert_eq!(r.unwrap_err(), ErrorCode::AmountOverflow);
    assert_eq!(pool.unwrap().total_pool, 1);
    assert_eq!(rich.balance, u64::MAX);
}

#[test]
fn stake_100_duel_with_60_40_bets() {
    // The documented scenario end to end: stake 100, both players in,
    // 60 on player A, 40 on player B, a late third bettor refused.
    let mut creator_funds = TokenAccount { balance: 100 };
    let (mut battle, mut vault, _) =
        create_battle(7, 1, BattleType::OneVsOne, 100, 3, 0, 0, &mut creator_funds).unwrap();
    let mut joiner_funds = TokenAccount { balance: 100 };
    join_battle(&mut battle, 7, &mut vault, 2, &mut joiner_funds, 10).unwrap();
    assert_eq!(vault.balance(), 200);

    let mut pool: Option<BettingPool> = None;
    let mut betting_vault = Vault::new();
    let mut first = TokenAccount { balance: 60 };
    place_bet(&battle, 7, &mut pool, &mut betting_vault, 30, &mut first, 1, 60, 20).unwrap();
    let mut second = TokenAccount { balance: 40 };
    place_bet(&battle, 7, &mut pool, &mut betting_vault, 31, &mut second, 2, 40, 20).unwrap();

    let p = pool.unwrap();
    assert_eq!(p.total_pool, 100);
    assert_eq!(p.bets_on_player_a, 60);
    assert_eq!(p.bets_on_player_b, 40);

    let mut third = TokenAccount { balance: 50 };
    let r = place_bet(&battle, 7, &mut pool, &mut betting_vault, 32, &mut third, 1, 50, 3 * DAY);
    assert_eq!(r.unwrap_err(), ErrorCode::BattleEnded);
}
