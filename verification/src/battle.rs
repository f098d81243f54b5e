//! The battle lifecycle state machine: creation, joining, and state
//! commitments.
//!
//! A battle has no stored state field; its phase is derived on demand
//! from the player count, the clock, and the active flag. Every
//! operation re-checks the predicates it needs, in a fixed order, so the
//! error it reports is deterministic, and either fully applies or leaves
//! every piece of state untouched.

use vstd::prelude::*;

use crate::errors::ErrorCode;
use crate::escrow::TokenAccount;
use crate::escrow::Vault;
use crate::events::BattleCreated;
use crate::events::PlayerCommitted;
use crate::events::PlayerJoined;

verus! {

/// Seconds in one day of battle duration.
pub const SECONDS_PER_DAY: i64 = 86400;

/// The longest allowed battle duration, in days.
pub const MAX_BATTLE_DURATION_DAYS: u8 = 7;

/// The two kinds of wager session: a two-player duel, or a group battle
/// of up to six friends.
#[derive(Clone, Copy, Debug, PartialEq, Eq, Structural)]
pub enum BattleType {
    OneVsOne,
    Friends,
}

/// The capacity a battle kind fixes: 2 for a duel, 6 for friends.
pub open spec fn spec_max_players(t: BattleType) -> u8 {
    match t {
        BattleType::OneVsOne => 2,
        BattleType::Friends => 6,
    }
}

/// No identity occurs twice in the list.
pub open spec fn no_dups(s: Seq<u64>) -> bool {
    forall|i: int, j: int| 0 <= i < j < s.len() ==> s[i] != s[j]
}

proof fn lemma_no_dups_push(s: Seq<u64>, x: u64)
    requires
        no_dups(s),
        !s.contains(x),
    ensures
        no_dups(s.push(x)),
{
    let t = s.push(x);
    assert forall|i: int, j: int| 0 <= i < j < t.len() implies t[i] != t[j] by {
        if j == s.len() as int {
            if s[i] == x {
                assert(s.contains(x));
            }
        }
    }
}

/// One wager session.
#[derive(Clone, Debug, PartialEq, Eq)]
pub struct Battle {
    pub creator: u64,
    pub battle_type: BattleType,
    pub league_amount: u64,
    pub max_players: u8,
    pub current_players: u8,
    pub players: Vec<u64>,
    pub start_time: i64,
    pub end_time: i64,
    pub is_active: bool,
    pub total_pool: u64,
    pub bump: u8,
}

/// The phase a battle is in at a given instant, derived, never stored:
/// freshly created with only its creator, open to joins, at capacity, or
/// past its end time. Claims additionally require the clock to be
/// strictly past the end time.
#[derive(Clone, Copy, Debug, PartialEq, Eq, Structural)]
pub enum BattlePhase {
    Created,
    Open,
    Full,
    Expired,
}

/// What `derive_state` answers.
pub open spec fn spec_derive_state(b: Battle, now: i64) -> BattlePhase {
    if now >= b.end_time {
        BattlePhase::Expired
    } else if b.current_players == b.max_players {
        BattlePhase::Full
    } else if b.current_players > 1 {
        BattlePhase::Open
    } else {
        BattlePhase::Created
    }
}

impl Battle {
    /// The battle's standing invariant: the player list matches the
    /// count, never exceeds the capacity its kind fixes, holds no
    /// duplicate and starts with the creator; the pooled total is
    /// exactly one stake per joined player; and the session spans at
    /// most seven days.
    pub open spec fn wf(self) -> bool {
        &&& self.players@.len() == self.current_players as int
        &&& self.current_players <= self.max_players
        &&& self.max_players == spec_max_players(self.battle_type)
        &&& no_dups(self.players@)
        &&& 1 <= self.current_players
        &&& self.players@[0] == self.creator
        &&& self.total_pool as int == self.current_players as int * self.league_amount as int
        &&& self.start_time <= self.end_time
        &&& self.end_time - self.start_time <= MAX_BATTLE_DURATION_DAYS as int * SECONDS_PER_DAY as int
    }

    /// Whether `player` has joined this battle.
    pub fn has_player(&self, player: u64) -> (r: bool)
        ensures
            r == self.players@.contains(player),
    {
        let mut i: usize = 0;
        while i < self.players.len()
            invariant
                i <= self.players@.len(),
                forall|j: int| 0 <= j < i ==> self.players@[j] != player,
            decreases self.players@.len() - i,
        {
            if self.players[i] == player {
                return true;
            }
            i = i + 1;
        }
        false
    }

    /// The derived lifecycle phase at instant `now`.
    pub fn derive_state(&self, now: i64) -> (r: BattlePhase)
        ensures
            r == spec_derive_state(*self, now),
    {
        if now >= self.end_time {
            BattlePhase::Expired
        } else if self.current_players == self.max_players {
            BattlePhase::Full
        } else if self.current_players > 1 {
            BattlePhase::Open
        } else {
            BattlePhase::Created
        }
    }
}

/// Why a creation would be refused, or `None` when it succeeds: a
/// duration over seven days, then a creator who cannot cover the stake.
pub open spec fn create_error(league_amount: u64, duration_days: u8, creator_balance: u64) -> Option<
    ErrorCode,
> {
    if duration_days > MAX_BATTLE_DURATION_DAYS {
        Some(ErrorCode::InvalidDuration)
    } else if creator_balance < league_amount {
        Some(ErrorCode::InsufficientFunds)
    } else {
        None
    }
}

/// Creates a battle: validates the duration, escrows the creator's stake
/// into a fresh vault, and opens the session with the creator as its
/// first player. `battle_id` and `bump` are the identifier and
/// derivation seed the storage substrate assigned to the new account.
pub fn create_battle(
    battle_id: u64,
    creator: u64,
    battle_type: BattleType,
    league_amount: u64,
    duration_days: u8,
    now: i64,
    bump: u8,
    creator_account: &mut TokenAccount,
) -> (r: Result<(Battle, Vault, BattleCreated), ErrorCode>)
    requires
        now <= i64::MAX - MAX_BATTLE_DURATION_DAYS as int * SECONDS_PER_DAY as int,
    ensures
        r is Ok <==> create_error(league_amount, duration_days, old(creator_account).balance)
            is None,
        r matches Err(e) ==> Some(e) == create_error(
            league_amount,
            duration_days,
            old(creator_account).balance,
        ) && *final(creator_account) == *old(creator_account),
        r matches Ok(out) ==> {
            &&& out.0.wf()
            &&& out.0.creator == creator
            &&& out.0.battle_type == battle_type
            &&& out.0.league_amount == league_amount
            &&& out.0.max_players == spec_max_players(battle_type)
            &&& out.0.current_players == 1
            &&& out.0.players@ =~= seq![creator]
            &&& out.0.start_time == now
            &&& out.0.end_time == now + duration_days as int * SECONDS_PER_DAY as int
            &&& out.0.is_active == true
            &&& out.0.total_pool == league_amount
            &&& out.0.bump == bump
            &&& out.1.spec_funds() == league_amount
            &&& final(creator_account).balance == old(creator_account).balance - league_amount
            &&& out.2 == (BattleCreated {
                battle: battle_id,
                creator,
                battle_type,
                league_amount,
                end_time: out.0.end_time,
            })
        },
{
    if duration_days > MAX_BATTLE_DURATION_DAYS {
        return Err(ErrorCode::InvalidDuration);
    }
    if creator_account.balance < league_amount {
        return Err(ErrorCode::InsufficientFunds);
    }
    let max_players: u8 = match battle_type {
        BattleType::OneVsOne => 2,
        BattleType::Friends => 6,
    };
    let mut vault = Vault::new();
    vault.deposit(creator_account, league_amount);
    let mut players: Vec<u64> = Vec::new();
    players.push(creator);
    let end_time = now + (duration_days as i64) * SECONDS_PER_DAY;
    let battle = Battle {
        creator,
        battle_type,
        league_amount,
        max_players,
        current_players: 1,
        players,
        start_time: now,
        end_time,
        is_active: true,
        total_pool: league_amount,
        bump,
    };
    let event = BattleCreated { battle: battle_id, creator, battle_type, league_amount, end_time };
    Ok((battle, vault, event))
}

/// Why a join would be refused, or `None` when it succeeds: the checks
/// run in this order, so the first failing one names the error.
pub open spec fn join_error(
    b: Battle,
    player: u64,
    now: i64,
    player_balance: u64,
    vault_funds: u64,
) -> Option<ErrorCode> {
    if !b.is_active {
        Some(ErrorCode::BattleNotActive)
    } else if b.current_players >= b.max_players {
        Some(ErrorCode::BattleFull)
    } else if now >= b.end_time {
        Some(ErrorCode::BattleEnded)
    } else if b.players@.contains(player) {
        Some(ErrorCode::AlreadyJoined)
    } else if player_balance < b.league_amount {
        Some(ErrorCode::InsufficientFunds)
    } else if vault_funds + b.league_amount > u64::MAX || b.total_pool + b.league_amount
        > u64::MAX {
        Some(ErrorCode::AmountOverflow)
    } else {
        None
    }
}

/// Joins `player` to an open battle: appends the player, bumps the count
/// and the pooled total by one stake, and escrows that stake from the
/// player into the battle vault — all of it, or on any refusal none of
/// it.
pub fn join_battle(
    battle: &mut Battle,
    battle_id: u64,
    vault: &mut Vault,
    player: u64,
    player_account: &mut TokenAccount,
    now: i64,
) -> (r: Result<PlayerJoined, ErrorCode>)
    requires
        old(battle).wf(),
    ensures
        final(battle).wf(),
        r is Ok <==> join_error(
            *old(battle),
            player,
            now,
            old(player_account).balance,
            old(vault).spec_funds(),
        ) is None,
        r matches Err(e) ==> Some(e) == join_error(
            *old(battle),
            player,
            now,
            old(player_account).balance,
            old(vault).spec_funds(),
        ) && *final(battle) == *old(battle) && *final(vault) == *old(vault) && *final(player_account) == *old(player_account),
        r matches Ok(ev) ==> {
            &&& final(battle).players@ =~= old(battle).players@.push(player)
            &&& final(battle).current_players == old(battle).current_players + 1
            &&& final(battle).total_pool == old(battle).total_pool + old(battle).league_amount
            &&& final(battle).creator == old(battle).creator
            &&& final(battle).battle_type == old(battle).battle_type
            &&& final(battle).league_amount == old(battle).league_amount
            &&& final(battle).max_players == old(battle).max_players
            &&& final(battle).start_time == old(battle).start_time
            &&& final(battle).end_time == old(battle).end_time
            &&& final(battle).is_active == old(battle).is_active
            &&& final(battle).bump == old(battle).bump
            &&& final(vault).spec_funds() == old(vault).spec_funds() + old(battle).league_amount
            &&& final(player_account).balance == old(player_account).balance - old(battle).league_amount
            &&& ev == (PlayerJoined {
                battle: battle_id,
                player,
                total_players: final(battle).current_players,
            })
        },
        final(vault).spec_funds() + final(player_account).balance == old(vault).spec_funds() + old(player_account).balance,
{
    if !battle.is_active {
        return Err(ErrorCode::BattleNotActive);
    }
    if battle.current_players >= battle.max_players {
        return Err(ErrorCode::BattleFull);
    }
    if now >= battle.end_time {
        return Err(ErrorCode::BattleEnded);
    }
    if battle.has_player(player) {
        return Err(ErrorCode::AlreadyJoined);
    }
    let stake = battle.league_amount;
    if player_account.balance < stake {
        return Err(ErrorCode::InsufficientFunds);
    }
    if !vault.can_deposit(stake) {
        return Err(ErrorCode::AmountOverflow);
    }
    if stake > u64::MAX - battle.total_pool {
        return Err(ErrorCode::AmountOverflow);
    }
    vault.deposit(player_account, stake);
    battle.players.push(player);
    battle.current_players = battle.current_players + 1;
    battle.total_pool = battle.total_pool + stake;
    proof {
        lemma_no_dups_push(old(battle).players@, player);
        let cp = old(battle).current_players as int;
        let la = old(battle).league_amount as int;
        assert((cp + 1) * la == cp * la + la) by (nonlinear_arith);
    }
    Ok(PlayerJoined { battle: battle_id, player, total_players: battle.current_players })
}

/// One anti-cheat commitment record per (battle, player) pair. The
/// storage substrate keys records by that pair and refuses a second
/// creation at an occupied key, which is what bounds each player to one
/// commitment; this core only builds the record.
#[derive(Clone, Copy, Debug, PartialEq, Eq)]
pub struct PlayerCommit {
    pub battle: u64,
    pub player: u64,
    pub wallet_balance_hash: [u8; 32],
    pub timestamp: i64,
    pub is_verified: bool,
}

/// Why a commitment would be refused, or `None` when it succeeds.
pub open spec fn commit_error(b: Battle, player: u64, now: i64) -> Option<ErrorCode> {
    if !b.is_active {
        Some(ErrorCode::BattleNotActive)
    } else if !b.players@.contains(player) {
        Some(ErrorCode::NotParticipant)
    } else if now >= b.end_time {
        Some(ErrorCode::BattleEnded)
    } else {
        None
    }
}

/// Records a participant's state commitment while the battle is open.
/// The hash is opaque to the core; verification happens off-chain, so
/// the record starts unverified.
pub fn commit_initial_state(
    battle: &Battle,
    battle_id: u64,
    player: u64,
    wallet_balance_hash: [u8; 32],
    now: i64,
) -> (r: Result<(PlayerCommit, PlayerCommitted), ErrorCode>)
    ensures
        r is Ok <==> commit_error(*battle, player, now) is None,
        r matches Err(e) ==> Some(e) == commit_error(*battle, player, now),
        r matches Ok(out) ==> {
            &&& out.0 == (PlayerCommit {
                battle: battle_id,
                player,
                wallet_balance_hash,
                timestamp: now,
                is_verified: false,
            })
            &&& out.1 == (PlayerCommitted { battle: battle_id, player, wallet_balance_hash, timestamp: now })
        },
{
    if !battle.is_active {
        return Err(ErrorCode::BattleNotActive);
    }
    if !battle.has_player(player) {
        return Err(ErrorCode::NotParticipant);
    }
    if now >= battle.end_time {
        return Err(ErrorCode::BattleEnded);
    }
    let commit = PlayerCommit {
        battle: battle_id,
        player,
        wallet_balance_hash,
        timestamp: now,
        is_verified: false,
    };
    let event = PlayerCommitted { battle: battle_id, player, wallet_balance_hash, timestamp: now };
    Ok((commit, event))
}

} // verus!
