use std::collections::HashMap;

use inverse_arena::fee_arena::contract::{ArenaContract, PLATFORM_FEE_BP};
use inverse_arena::fee_arena::errors::ArenaError;
use inverse_arena::fee_arena::events::{ArenaEvent, Transfer};
use inverse_arena::fee_arena::types::{Choice, GameState, GlobalStats, RoundResult};
use inverse_arena::AccountId;

const ARENA: AccountId = 9_999;
const ADMIN: AccountId = 1;
const TOKEN: AccountId = 2;
const TREASURY: AccountId = 3;
const START: u64 = 100_000;

/// Why a call failed: the arena refused it, or the host could not move the
/// tokens it asked for (and rolled the call back).
#[derive(Debug, PartialEq)]
enum CallError {
    Contract(ArenaError),
    Host,
}

impl CallError {
    fn contract(self) -> ArenaError {
        match self {
            CallError::Contract(e) => e,
            CallError::Host => panic!("expected a contract error"),
        }
    }
}

/// An arena with a ledger clock and a token ledger, run the way the host
/// runs it.
struct World {
    arena: ArenaContract,
    now: u64,
    balances: HashMap<AccountId, i128>,
    next_account: AccountId,
}

impl World {
    fn new() -> World {
        World { arena: ArenaContract::new(), now: START, balances: HashMap::new(), next_account: 100 }
    }

    fn generate(&mut self) -> AccountId {
        self.next_account += 1;
        self.next_account
    }

    fn mint(&mut self, who: AccountId, amount: i128) {
        *self.balances.entry(who).or_insert(0) += amount;
    }

    fn balance(&self, who: AccountId) -> i128 {
        *self.balances.get(&who).unwrap_or(&0)
    }

    /// Run an entry point; perform the token movements it asks for, and roll
    /// everything back if one of them cannot be made.
    fn call<T>(&mut self, f: impl FnOnce(&mut ArenaContract, u64) -> Result<T, ArenaError>) -> Result<T, CallError> {
        let snapshot = self.arena.clone();
        let done = self.arena.transfers.len();
        let now = self.now;
        let r = f(&mut self.arena, now).map_err(CallError::Contract)?;
        let mut balances = self.balances.clone();
        for t in self.arena.transfers[done..].iter() {
            let (from, to, amount) = match *t {
                Transfer::ToArena { from, amount } => (from, ARENA, amount),
                Transfer::FromArena { to, amount } => (ARENA, to, amount),
            };
            let have = *balances.get(&from).unwrap_or(&0);
            if have < amount {
                self.arena = snapshot;
                return Err(CallError::Host);
            }
            balances.insert(from, have - amount);
            *balances.entry(to).or_insert(0) += amount;
        }
        self.balances = balances;
        Ok(r)
    }

    fn initialize(&mut self, fee: i128, max: u32, deadline: u64, cooldown: u64) -> Result<(), CallError> {
        self.call(|a, now| a.initialize(ADMIN, TOKEN, fee, max, deadline, TREASURY, cooldown, now))
    }

    fn configure(&mut self, fee: Option<i128>, max: Option<u32>, deadline: Option<u64>) -> Result<(), CallError> {
        self.call(|a, now| a.configure_arena(fee, max, deadline, now))
    }

    fn join(&mut self, p: AccountId) -> Result<(), CallError> {
        self.call(|a, now| a.join(p, now))
    }

    fn submit(&mut self, p: AccountId, c: Choice) -> Result<(), CallError> {
        self.call(|a, _| a.submit_choice(p, c))
    }

    fn resolve(&mut self) -> Result<RoundResult, CallError> {
        self.call(|a, _| a.resolve_round())
    }

    fn claim(&mut self, p: AccountId) -> Result<(), CallError> {
        self.call(|a, _| a.claim(p))
    }

    fn config(&self) -> inverse_arena::fee_arena::types::ArenaConfig {
        self.arena.get_config().unwrap()
    }

    /// An arena initialized with the usual parameters and two funded
    /// players that joined.
    fn with_players(n: usize, fee: i128) -> (World, Vec<AccountId>) {
        let mut w = World::new();
        let deadline = w.now + 86_400;
        w.initialize(fee, 100, deadline, 0).unwrap();
        let mut players = Vec::new();
        for _ in 0..n {
            let p = w.generate();
            w.mint(p, fee);
            w.join(p).unwrap();
            players.push(p);
        }
        (w, players)
    }

    fn last_event(&self) -> ArenaEvent {
        self.arena.events.log.last().unwrap().clone()
    }
}

fn initialized() -> World {
    let mut w = World::new();
    let deadline = w.now + 86_400;
    w.initialize(100_000_000, 100, deadline, 0).unwrap();
    w
}

// ── configuration ──────────────────────────────────────────────────────

#[test]
fn configure_arena_updates_all_parameters() {
    let mut w = initialized();
    let new_deadline = w.now + 172_800;
    w.configure(Some(50_000_000), Some(200), Some(new_deadline)).unwrap();
    let config = w.config();
    assert_eq!(config.entry_fee, 50_000_000);
    assert_eq!(config.max_players, 200);
    assert_eq!(config.join_deadline, new_deadline);
}

#[test]
fn configure_arena_updates_entry_fee_only() {
    let mut w = initialized();
    w.configure(Some(75_000_000), None, None).unwrap();
    let config = w.config();
    assert_eq!(config.entry_fee, 75_000_000);
    assert_eq!(config.max_players, 100);
    assert_eq!(config.join_deadline, START + 86_400);
}

#[test]
fn configure_arena_updates_max_players_only() {
    let mut w = initialized();
    w.configure(None, Some(150), None).unwrap();
    let config = w.config();
    assert_eq!(config.entry_fee, 100_000_000);
    assert_eq!(config.max_players, 150);
    assert_eq!(config.join_deadline, START + 86_400);
}

#[test]
fn configure_arena_updates_deadline_only() {
    let mut w = initialized();
    let new_deadline = w.now + 259_200;
    w.configure(None, None, Some(new_deadline)).unwrap();
    let config = w.config();
    assert_eq!(config.entry_fee, 100_000_000);
    assert_eq!(config.max_players, 100);
    assert_eq!(config.join_deadline, new_deadline);
}

#[test]
fn configure_arena_fails_when_game_in_progress() {
    let mut w = initialized();
    w.call(|a, _| a.start_game()).unwrap();
    let result = w.configure(Some(50_000_000), None, None);
    assert!(result.is_err());
    assert_eq!(result.unwrap_err().contract(), ArenaError::ArenaAlreadyStarted);
}

#[test]
fn configure_arena_fails_when_game_finished() {
    let mut w = initialized();
    w.call(|a, _| a.start_game()).unwrap();
    w.call(|a, _| a.finish_game()).unwrap();
    let result = w.configure(Some(50_000_000), None, None);
    assert!(result.is_err());
    assert_eq!(result.unwrap_err().contract(), ArenaError::ArenaAlreadyStarted);
}

#[test]
fn configure_arena_rejects_zero_entry_fee() {
    let mut w = initialized();
    let result = w.configure(Some(0), None, None);
    assert!(result.is_err());
    assert_eq!(result.unwrap_err().contract(), ArenaError::InvalidEntryFee);
}

#[test]
fn configure_arena_rejects_negative_entry_fee() {
    let mut w = initialized();
    let result = w.configure(Some(-100), None, None);
    assert!(result.is_err());
    assert_eq!(result.unwrap_err().contract(), ArenaError::InvalidEntryFee);
}

#[test]
fn configure_arena_rejects_past_deadline() {
    let mut w = initialized();
    let past = w.now - 1000;
    let result = w.configure(None, None, Some(past));
    assert!(result.is_err());
    assert_eq!(result.unwrap_err().contract(), ArenaError::DeadlineTooSoon);
}

#[test]
fn configure_arena_rejects_current_time_deadline() {
    let mut w = initialized();
    let now = w.now;
    let result = w.configure(None, None, Some(now));
    assert!(result.is_err());
    assert_eq!(result.unwrap_err().contract(), ArenaError::DeadlineTooSoon);
}

#[test]
fn configure_arena_accepts_future_deadline() {
    let mut w = initialized();
    let future = w.now + 172_800;
    w.configure(None, None, Some(future)).unwrap();
    assert_eq!(w.config().join_deadline, future);
}

#[test]
fn configure_arena_can_be_called_multiple_times() {
    let mut w = initialized();
    w.configure(Some(75_000_000), None, None).unwrap();
    assert_eq!(w.config().entry_fee, 75_000_000);
    w.configure(None, Some(150), None).unwrap();
    let config2 = w.config();
    assert_eq!(config2.entry_fee, 75_000_000);
    assert_eq!(config2.max_players, 150);
    let new_deadline = w.now + 259_200;
    w.configure(Some(50_000_000), None, Some(new_deadline)).unwrap();
    let config3 = w.config();
    assert_eq!(config3.entry_fee, 50_000_000);
    assert_eq!(config3.max_players, 150);
    assert_eq!(config3.join_deadline, new_deadline);
}

#[test]
fn configure_arena_emits_event() {
    let mut w = initialized();
    let before = w.arena.events.log.len();
    w.configure(Some(50_000_000), Some(200), None).unwrap();
    assert!(w.arena.events.log.len() > before);
    assert_eq!(w.last_event(), ArenaEvent::ArenaConfigured);
}

#[test]
fn configure_arena_with_all_none_succeeds() {
    let mut w = initialized();
    w.configure(None, None, None).unwrap();
    let config = w.config();
    assert_eq!(config.entry_fee, 100_000_000);
    assert_eq!(config.max_players, 100);
    assert_eq!(config.join_deadline, START + 86_400);
}

#[test]
fn configure_arena_after_players_joined() {
    let (mut w, _players) = World::with_players(2, 100_000_000);
    assert_eq!(w.arena.get_player_count(), Ok(2));
    w.configure(None, Some(200), None).unwrap();
    assert_eq!(w.arena.get_player_count(), Ok(2));
    assert_eq!(w.config().max_players, 200);
}

#[test]
fn configure_then_start_game_uses_new_config() {
    let mut w = initialized();
    w.configure(Some(50_000_000), None, None).unwrap();
    assert_eq!(w.config().entry_fee, 50_000_000);
    let player = w.generate();
    w.mint(player, 50_000_000);
    w.join(player).unwrap();
    assert_eq!(w.balance(player), 0);
}

#[test]
fn initialize_rejects_entry_fee_outside_bounds() {
    let mut w = World::new();
    let deadline = w.now + 86_400;
    let result = w.initialize(4_000_000 - 1, 2, deadline, 0);
    assert!(result.is_err());
    assert_eq!(result.unwrap_err().contract(), ArenaError::InvalidEntryFee);
}

#[test]
fn initialize_accepts_the_smallest_entry_fee() {
    let mut w = World::new();
    let deadline = w.now + 86_400;
    assert!(w.initialize(4_000_000, 2, deadline, 0).is_ok());
    assert_eq!(w.config().entry_fee, 4_000_000);
}

#[test]
fn initialize_rejects_zero_entry_fee() {
    let mut w = World::new();
    let deadline = w.now + 86_400;
    let result = w.initialize(0, 100, deadline, 0);
    assert!(result.is_err());
    assert_eq!(result.unwrap_err().contract(), ArenaError::InvalidEntryFee);
}

#[test]
fn initialize_rejects_past_deadline() {
    let mut w = World::new();
    let past = w.now - 1000;
    let result = w.initialize(100_000_000, 100, past, 0);
    assert!(result.is_err());
    assert_eq!(result.unwrap_err().contract(), ArenaError::DeadlineTooSoon);
}

#[test]
fn configure_arena_accepts_zero_max_players() {
    let mut w = initialized();
    w.configure(None, Some(0), None).unwrap();
    assert_eq!(w.config().max_players, 0);
}

// ── full games ─────────────────────────────────────────────────────────

#[test]
fn test_full_game_two_players_one_round() {
    let (mut w, players) = World::with_players(2, 100_000_000);
    let (alice, bob) = (players[0], players[1]);
    w.call(|a, _| a.start_game()).unwrap();
    assert_eq!(w.arena.game_state(), GameState::InProgress);
    w.submit(alice, Choice::Heads).unwrap();
    w.submit(bob, Choice::Tails).unwrap();
    let result = w.resolve().unwrap();
    assert_eq!(result.eliminated + result.survivors, 2);
    assert_eq!(result.survivors, 1);
    assert_eq!(w.arena.game_state(), GameState::Finished);
    let winner = w.arena.winner().unwrap();
    assert_eq!(winner, alice);
    w.claim(winner).unwrap();
}

#[test]
fn test_full_game_ten_players_four_rounds() {
    let (mut w, players) = World::with_players(10, 100_000_000);
    assert_eq!(w.arena.get_player_count(), Ok(10));
    w.call(|a, _| a.start_game()).unwrap();
    let (p0, p1, p2, p3) = (players[0], players[1], players[2], players[3]);

    for p in [p0, p1, p2, p3] {
        w.submit(p, Choice::Heads).unwrap();
    }
    for p in players[4..].iter() {
        w.submit(*p, Choice::Tails).unwrap();
    }
    let r1 = w.resolve().unwrap();
    assert_eq!(r1.eliminated, 6);
    assert_eq!(r1.survivors, 4);
    assert_eq!(w.arena.game_state(), GameState::InProgress);

    for _ in 0..2 {
        w.submit(p0, Choice::Heads).unwrap();
        w.submit(p1, Choice::Heads).unwrap();
        w.submit(p2, Choice::Tails).unwrap();
        w.submit(p3, Choice::Tails).unwrap();
        let r = w.resolve().unwrap();
        assert_eq!(r.eliminated, 0);
        assert_eq!(r.survivors, 4);
        assert_eq!(w.arena.game_state(), GameState::InProgress);
    }

    w.submit(p0, Choice::Heads).unwrap();
    w.submit(p1, Choice::Tails).unwrap();
    w.submit(p2, Choice::Tails).unwrap();
    w.submit(p3, Choice::Tails).unwrap();
    let r4 = w.resolve().unwrap();
    assert_eq!(r4.eliminated, 3);
    assert_eq!(r4.survivors, 1);
    assert_eq!(w.arena.game_state(), GameState::Finished);
    let winner = w.arena.winner().unwrap();
    assert_eq!(winner, p0);
    w.claim(winner).unwrap();
}

#[test]
fn test_tie_round_no_eliminations() {
    let (mut w, p) = World::with_players(4, 100_000_000);
    w.call(|a, _| a.start_game()).unwrap();
    w.submit(p[0], Choice::Heads).unwrap();
    w.submit(p[1], Choice::Heads).unwrap();
    w.submit(p[2], Choice::Tails).unwrap();
    w.submit(p[3], Choice::Tails).unwrap();
    let result = w.resolve().unwrap();
    assert_eq!(result.eliminated, 0);
    assert_eq!(result.survivors, 4);
    assert_eq!(w.arena.game_state(), GameState::InProgress);
}

#[test]
fn test_late_join_rejection() {
    let mut w = World::new();
    let deadline = w.now + 1000;
    w.initialize(100_000_000, 100, deadline, 0).unwrap();
    w.now = START + 2000;
    let player = w.generate();
    let result = w.join(player);
    assert!(result.is_err());
    assert_eq!(result.unwrap_err().contract(), ArenaError::DeadlinePassed);
}

#[test]
fn test_claim_errors() {
    let (mut w, p) = World::with_players(2, 100_000_000);
    let (alice, bob) = (p[0], p[1]);
    w.call(|a, _| a.start_game()).unwrap();
    w.submit(alice, Choice::Heads).unwrap();
    w.submit(bob, Choice::Tails).unwrap();
    w.resolve().unwrap();
    let bob_claim = w.claim(bob);
    assert!(bob_claim.is_err());
    assert_eq!(bob_claim.unwrap_err().contract(), ArenaError::PlayerEliminated);
    assert!(w.claim(alice).is_ok());
    let double_claim = w.claim(alice);
    assert!(double_claim.is_err());
    assert_eq!(double_claim.unwrap_err().contract(), ArenaError::PrizeAlreadyClaimed);
}

// ── token movements ────────────────────────────────────────────────────

#[test]
fn test_join_transfers_entry_fee() {
    let mut w = initialized();
    let player = w.generate();
    w.mint(player, 100_000_000);
    let player_before = w.balance(player);
    let contract_before = w.balance(ARENA);
    w.join(player).unwrap();
    assert_eq!(player_before - w.balance(player), 100_000_000);
    assert_eq!(w.balance(ARENA) - contract_before, 100_000_000);
}

#[test]
fn test_join_fails_without_tokens() {
    let mut w = initialized();
    let player = w.generate();
    let result = w.join(player);
    assert!(result.is_err());
    assert_eq!(w.arena.get_player_count(), Ok(0));
}

#[test]
fn test_claim_transfers_prize() {
    let entry_fee: i128 = 100_000_000;
    let (mut w, p) = World::with_players(2, entry_fee);
    let (alice, bob) = (p[0], p[1]);
    w.call(|a, _| a.start_game()).unwrap();
    w.submit(alice, Choice::Heads).unwrap();
    w.submit(bob, Choice::Tails).unwrap();
    w.resolve().unwrap();
    let total_pot: i128 = entry_fee * 2;
    let platform_fee = total_pot * PLATFORM_FEE_BP / 10000;
    let prize = total_pot - platform_fee;
    let alice_before = w.balance(alice);
    let admin_before = w.balance(ADMIN);
    w.claim(alice).unwrap();
    assert_eq!(w.balance(alice) - alice_before, prize);
    assert_eq!(w.balance(ADMIN) - admin_before, platform_fee);
}

#[test]
fn test_cancel_arena_and_refund() {
    let (mut w, p) = World::with_players(1, 100_000_000);
    let player = p[0];
    w.call(|a, _| a.cancel_arena()).unwrap();
    assert_eq!(w.arena.game_state(), GameState::Cancelled);
    let before = w.balance(player);
    w.call(|a, _| a.claim_refund(player)).unwrap();
    assert_eq!(w.balance(player) - before, 100_000_000);
    let result = w.call(|a, _| a.claim_refund(player));
    assert!(result.is_err());
    assert_eq!(result.unwrap_err().contract(), ArenaError::RefundAlreadyClaimed);
}

#[test]
fn test_claim_fails_when_game_not_finished() {
    let (mut w, p) = World::with_players(2, 100_000_000);
    let result = w.claim(p[0]);
    assert!(result.is_err());
    assert_eq!(result.unwrap_err().contract(), ArenaError::GameNotFinished);
}

#[test]
fn test_claim_fails_when_game_in_progress() {
    let (mut w, p) = World::with_players(2, 100_000_000);
    w.call(|a, _| a.start_game()).unwrap();
    let result = w.claim(p[0]);
    assert!(result.is_err());
    assert_eq!(result.unwrap_err().contract(), ArenaError::GameNotFinished);
}

#[test]
fn test_claim_fails_when_arena_cancelled() {
    let (mut w, p) = World::with_players(1, 100_000_000);
    w.call(|a, _| a.cancel_arena()).unwrap();
    let result = w.claim(p[0]);
    assert!(result.is_err());
    assert_eq!(result.unwrap_err().contract(), ArenaError::GameNotFinished);
}

#[test]
fn test_platform_fee_calculation_accuracy() {
    let entry_fee: i128 = 100_000_000;
    let (mut w, p) = World::with_players(10, entry_fee);
    w.call(|a, _| a.start_game()).unwrap();
    w.submit(p[0], Choice::Heads).unwrap();
    for q in p[1..].iter() {
        w.submit(*q, Choice::Tails).unwrap();
    }
    w.resolve().unwrap();
    let winner = p[0];
    let total_pot: i128 = entry_fee * 10;
    let platform_fee = total_pot * PLATFORM_FEE_BP / 10000;
    let expected_prize = total_pot - platform_fee;
    let winner_before = w.balance(winner);
    let admin_before = w.balance(ADMIN);
    w.claim(winner).unwrap();
    assert_eq!(w.balance(winner) - winner_before, expected_prize);
    assert_eq!(w.balance(ADMIN) - admin_before, platform_fee);
}

#[test]
fn test_platform_fee_with_different_amounts() {
    let entry_fee: i128 = 50_000_000;
    let (mut w, p) = World::with_players(3, entry_fee);
    let alice = p[0];
    w.call(|a, _| a.start_game()).unwrap();
    w.submit(p[0], Choice::Heads).unwrap();
    w.submit(p[1], Choice::Tails).unwrap();
    w.submit(p[2], Choice::Tails).unwrap();
    w.resolve().unwrap();
    let total_pot: i128 = entry_fee * 3;
    let platform_fee = total_pot * PLATFORM_FEE_BP / 10000;
    let expected_prize = total_pot - platform_fee;
    let alice_before = w.balance(alice);
    let admin_before = w.balance(ADMIN);
    w.claim(alice).unwrap();
    assert_eq!(w.balance(alice) - alice_before, expected_prize);
    assert_eq!(w.balance(ADMIN) - admin_before, platform_fee);
}

#[test]
fn test_refund_fails_for_non_player() {
    let (mut w, _p) = World::with_players(1, 100_000_000);
    let non_player = w.generate();
    w.call(|a, _| a.cancel_arena()).unwrap();
    let result = w.call(|a, _| a.claim_refund(non_player));
    assert!(result.is_err());
    assert_eq!(result.unwrap_err().contract(), ArenaError::NotAPlayer);
}

#[test]
fn test_claim_refund_fails_if_not_cancelled() {
    let (mut w, p) = World::with_players(1, 100_000_000);
    let player = p[0];
    let result = w.call(|a, _| a.claim_refund(player));
    assert!(result.is_err());
    assert_eq!(result.unwrap_err().contract(), ArenaError::ArenaNotCancelled);
}

#[test]
fn test_deposit_and_withdraw_creator_stake() {
    let mut w = initialized();
    let stake_amount: i128 = 500_000_000;
    w.mint(ADMIN, stake_amount);
    let admin_before = w.balance(ADMIN);
    let contract_before = w.balance(ARENA);
    w.call(|a, _| a.deposit_creator_stake(ADMIN, stake_amount)).unwrap();
    let admin_deposit = w.balance(ADMIN);
    let contract_deposit = w.balance(ARENA);
    assert_eq!(admin_before - admin_deposit, stake_amount);
    assert_eq!(contract_deposit - contract_before, stake_amount);
    assert_eq!(w.arena.get_creator_stake(), stake_amount);
    w.call(|a, _| a.start_game()).unwrap();
    w.call(|a, _| a.finish_game()).unwrap();
    w.call(|a, _| a.withdraw_creator_stake(ADMIN)).unwrap();
    assert_eq!(w.balance(ADMIN) - admin_deposit, stake_amount);
    assert_eq!(contract_before - w.balance(ARENA), 0);
    assert_eq!(w.arena.get_creator_stake(), 0);
}

#[test]
fn test_double_deposit_stake_fails() {
    let mut w = initialized();
    let stake_amount: i128 = 500_000_000;
    w.mint(ADMIN, stake_amount * 2);
    w.call(|a, _| a.deposit_creator_stake(ADMIN, stake_amount)).unwrap();
    let result = w.call(|a, _| a.deposit_creator_stake(ADMIN, stake_amount));
    assert!(result.is_err());
    assert_eq!(result.unwrap_err().contract(), ArenaError::StakeAlreadyDeposited);
}

#[test]
fn test_withdraw_without_stake_fails() {
    let mut w = initialized();
    let result = w.call(|a, _| a.withdraw_creator_stake(ADMIN));
    assert!(result.is_err());
    assert_eq!(result.unwrap_err().contract(), ArenaError::NoStakeToWithdraw);
}

#[test]
fn test_cancel_arena_fails_when_not_open() {
    let mut w = initialized();
    w.call(|a, _| a.start_game()).unwrap();
    let result = w.call(|a, _| a.cancel_arena());
    assert!(result.is_err());
    assert_eq!(result.unwrap_err().contract(), ArenaError::InvalidStateTransition);
}

// ── pause ──────────────────────────────────────────────────────────────

#[test]
fn pause_rejects_all_state_mutating_operations() {
    let mut w = initialized();
    w.call(|a, _| a.pause("emerg".to_string())).unwrap();
    assert!(w.config().paused);
    let player = w.generate();
    let join_result = w.join(player);
    assert!(join_result.is_err());
    assert_eq!(join_result.unwrap_err().contract(), ArenaError::ContractPaused);
    let start_result = w.call(|a, _| a.start_game());
    assert!(start_result.is_err());
    assert_eq!(start_result.unwrap_err().contract(), ArenaError::ContractPaused);
}

#[test]
fn pause_rejects_submit_choice() {
    let (mut w, p) = World::with_players(2, 100_000_000);
    w.call(|a, _| a.start_game()).unwrap();
    w.call(|a, _| a.pause("emerg".to_string())).unwrap();
    let result = w.submit(p[0], Choice::Heads);
    assert!(result.is_err());
    assert_eq!(result.unwrap_err().contract(), ArenaError::ContractPaused);
    let resolve_result = w.resolve();
    assert!(resolve_result.is_err());
    assert_eq!(resolve_result.unwrap_err().contract(), ArenaError::ContractPaused);
}

#[test]
fn pause_rejects_claim() {
    let (mut w, p) = World::with_players(2, 100_000_000);
    w.call(|a, _| a.start_game()).unwrap();
    w.submit(p[0], Choice::Heads).unwrap();
    w.submit(p[1], Choice::Tails).unwrap();
    w.resolve().unwrap();
    w.call(|a, _| a.pause("emerg".to_string())).unwrap();
    let winner = w.arena.winner().unwrap();
    let result = w.claim(winner);
    assert!(result.is_err());
    assert_eq!(result.unwrap_err().contract(), ArenaError::ContractPaused);
}

#[test]
fn read_queries_work_while_paused() {
    let (mut w, p) = World::with_players(2, 100_000_000);
    w.call(|a, _| a.start_game()).unwrap();
    w.submit(p[0], Choice::Heads).unwrap();
    w.submit(p[1], Choice::Tails).unwrap();
    w.resolve().unwrap();
    w.call(|a, _| a.pause("emerg".to_string())).unwrap();
    assert_eq!(w.config().state, GameState::Finished);
    assert_eq!(w.arena.game_state(), GameState::Finished);
    assert_eq!(w.arena.get_player_count(), Ok(2));
    assert!(w.arena.winner().is_some());
    assert_eq!(w.arena.treasury(), Ok(TREASURY));
}

#[test]
fn unpause_restores_mutating_operations() {
    let (mut w, p) = World::with_players(2, 100_000_000);
    w.call(|a, _| a.start_game()).unwrap();
    w.call(|a, _| a.pause("emerg".to_string())).unwrap();
    assert!(w.config().paused);
    w.call(|a, _| a.unpause()).unwrap();
    assert!(!w.config().paused);
    w.submit(p[0], Choice::Heads).unwrap();
    w.submit(p[1], Choice::Tails).unwrap();
    let result = w.resolve().unwrap();
    assert!(result.survivors > 0);
}

// ── cooldown and treasury ──────────────────────────────────────────────

#[test]
fn cooldown_enforced_between_creations() {
    let mut w = World::new();
    let deadline = w.now + 86_400;
    w.initialize(100_000_000, 100, deadline, 60).unwrap();
    w.call(|a, _| a.set_creation_cooldown(60)).unwrap();
    assert_eq!(w.config().creation_cooldown_seconds, 60);
    let now = w.now;
    let other_creator: AccountId = 77;
    let result = w.call(|a, _| a.initialize(other_creator, TOKEN, 100_000_000, 100, deadline, TREASURY, 60, now + 30));
    assert_eq!(result.unwrap_err().contract(), ArenaError::CooldownNotElapsed);
}

#[test]
fn admin_bypasses_cooldown() {
    let mut w = World::new();
    let deadline = w.now + 86_400;
    w.initialize(100_000_000, 100, deadline, 60).unwrap();
    let result = w.call(|a, _| a.set_creation_cooldown(120));
    assert!(result.is_ok());
    assert_eq!(w.config().creation_cooldown_seconds, 120);
    assert!(w.initialize(100_000_000, 100, deadline, 60).is_ok());
}

#[test]
fn cooldown_configurable_by_admin() {
    let mut w = World::new();
    let deadline = w.now + 86_400;
    w.initialize(100_000_000, 100, deadline, 30).unwrap();
    assert_eq!(w.config().creation_cooldown_seconds, 30);
    w.call(|a, _| a.set_creation_cooldown(90)).unwrap();
    assert_eq!(w.config().creation_cooldown_seconds, 90);
    w.call(|a, _| a.set_creation_cooldown(0)).unwrap();
    assert_eq!(w.config().creation_cooldown_seconds, 0);
}

#[test]
fn treasury_address_stored_on_initialize() {
    let w = initialized();
    assert_eq!(w.arena.treasury(), Ok(TREASURY));
}

#[test]
fn admin_can_update_treasury() {
    let mut w = initialized();
    let new_treasury = w.generate();
    w.call(|a, _| a.update_treasury(new_treasury)).unwrap();
    assert_eq!(w.arena.treasury(), Ok(new_treasury));
}

// ── creator stake ──────────────────────────────────────────────────────

#[test]
fn deposit_creator_stake_success() {
    let mut w = initialized();
    let creator = w.generate();
    w.mint(creator, 50_000);
    w.call(|a, _| a.deposit_creator_stake(creator, 50_000)).unwrap();
    assert_eq!(w.config().creator_stake, 50_000);
}

#[test]
fn deposit_creator_stake_invalid_amount() {
    let mut w = initialized();
    let creator = w.generate();
    let result = w.call(|a, _| a.deposit_creator_stake(creator, -100));
    assert!(result.is_err());
    assert_eq!(result.unwrap_err().contract(), ArenaError::InvalidStakeAmount);
    let result_zero = w.call(|a, _| a.deposit_creator_stake(creator, 0));
    assert!(result_zero.is_err());
    assert_eq!(result_zero.unwrap_err().contract(), ArenaError::InvalidStakeAmount);
}

#[test]
fn withdraw_creator_stake_no_active_pools() {
    let mut w = initialized();
    w.call(|a, _| a.start_game()).unwrap();
    w.call(|a, _| a.finish_game()).unwrap();
    let creator = w.generate();
    w.mint(creator, 100_000);
    w.call(|a, _| a.deposit_creator_stake(creator, 100_000)).unwrap();
    let withdraw_result = w.call(|a, _| a.withdraw_creator_stake(creator));
    assert!(withdraw_result.is_ok());
    assert_eq!(w.config().creator_stake, 0);
    assert_eq!(
        w.last_event(),
        ArenaEvent::CreatorStakeWithdrawn { creator, amount: 100_000, slashed: false }
    );
}

#[test]
fn withdraw_creator_stake_with_active_pools_default_slash() {
    let mut w = initialized();
    let creator = w.generate();
    w.mint(creator, 100_000);
    w.call(|a, _| a.deposit_creator_stake(creator, 100_000)).unwrap();
    let withdraw_result = w.call(|a, _| a.withdraw_creator_stake(creator));
    assert!(withdraw_result.is_ok());
    assert_eq!(w.config().creator_stake, 0);
    assert_eq!(
        w.last_event(),
        ArenaEvent::StakeSlashed { creator, slashed_amount: 50_000, remaining_returned: 50_000 }
    );
    assert_eq!(w.balance(creator), 50_000);
}

#[test]
fn set_slash_rate_success_and_affects_slash() {
    let mut w = initialized();
    w.call(|a, _| a.set_slash_rate(2500)).unwrap();
    assert_eq!(w.config().slash_rate_bps, 2500);
    let creator = w.generate();
    w.mint(creator, 100_000);
    w.call(|a, _| a.deposit_creator_stake(creator, 100_000)).unwrap();
    let withdraw_result = w.call(|a, _| a.withdraw_creator_stake(creator));
    assert!(withdraw_result.is_ok());
    assert_eq!(w.config().creator_stake, 0);
    assert_eq!(
        w.last_event(),
        ArenaEvent::StakeSlashed { creator, slashed_amount: 25_000, remaining_returned: 75_000 }
    );
}

#[test]
fn set_slash_rate_invalid() {
    let mut w = initialized();
    let result = w.call(|a, _| a.set_slash_rate(10001));
    assert!(result.is_err());
    assert_eq!(result.unwrap_err().contract(), ArenaError::InvalidSlashRate);
}

#[test]
fn withdraw_creator_stake_no_stake_fails() {
    let mut w = initialized();
    let creator = w.generate();
    let result = w.call(|a, _| a.withdraw_creator_stake(creator));
    assert!(result.is_err());
    assert_eq!(result.unwrap_err().contract(), ArenaError::NoStakeToWithdraw);
}

// ── auto-resolve ───────────────────────────────────────────────────────

#[test]
fn auto_resolve_fails_before_deadline() {
    let (mut w, p) = World::with_players(2, 100_000_000);
    w.call(|a, _| a.start_game()).unwrap();
    w.submit(p[0], Choice::Heads).unwrap();
    w.submit(p[1], Choice::Tails).unwrap();
    let result = w.call(|a, now| a.auto_resolve(now));
    assert!(result.is_err());
    assert_eq!(result.unwrap_err().contract(), ArenaError::DeadlineTooSoon);
}

#[test]
fn auto_resolve_succeeds_after_deadline_by_any_caller() {
    let mut w = World::new();
    let deadline = w.now + 1000;
    w.initialize(100_000_000, 100, deadline, 0).unwrap();
    let alice = w.generate();
    let bob = w.generate();
    w.mint(alice, 100_000_000);
    w.mint(bob, 100_000_000);
    w.join(alice).unwrap();
    w.join(bob).unwrap();
    w.call(|a, _| a.start_game()).unwrap();
    w.submit(alice, Choice::Heads).unwrap();
    w.submit(bob, Choice::Tails).unwrap();
    w.now = deadline + 1;
    let round_result = w.call(|a, now| a.auto_resolve(now)).unwrap();
    assert_eq!(round_result.eliminated + round_result.survivors, 2);
}

#[test]
fn auto_resolve_fails_when_game_not_in_progress() {
    let mut w = World::new();
    let deadline = w.now + 1000;
    w.initialize(100_000_000, 100, deadline, 0).unwrap();
    w.now = deadline + 1;
    let result = w.call(|a, now| a.auto_resolve(now));
    assert!(result.is_err());
    assert_eq!(result.unwrap_err().contract(), ArenaError::InvalidStateTransition);
}

// ── players ────────────────────────────────────────────────────────────

#[test]
fn player_profile_created_on_first_join() {
    let mut w = initialized();
    assert_eq!(w.arena.get_player_count(), Ok(0));
    let player = w.generate();
    w.mint(player, 100_000_000);
    w.join(player).unwrap();
    assert_eq!(w.arena.get_player_count(), Ok(1));
}

#[test]
fn games_played_increments_after_round_resolves() {
    let (mut w, p) = World::with_players(4, 100_000_000);
    w.call(|a, _| a.start_game()).unwrap();
    w.submit(p[0], Choice::Heads).unwrap();
    w.submit(p[1], Choice::Tails).unwrap();
    w.submit(p[2], Choice::Tails).unwrap();
    w.submit(p[3], Choice::Tails).unwrap();
    let r1 = w.resolve().unwrap();
    assert_eq!(r1.round, 1);
    assert_eq!(r1.survivors, 1);
    assert_eq!(r1.eliminated, 3);
}

#[test]
fn winner_is_recorded_after_final_round() {
    let (mut w, p) = World::with_players(3, 100_000_000);
    w.call(|a, _| a.start_game()).unwrap();
    w.submit(p[0], Choice::Heads).unwrap();
    w.submit(p[1], Choice::Tails).unwrap();
    w.submit(p[2], Choice::Tails).unwrap();
    w.resolve().unwrap();
    assert_eq!(w.arena.winner(), Some(p[0]));
}

#[test]
fn survival_streak_resets_after_elimination() {
    let (mut w, p) = World::with_players(5, 100_000_000);
    w.call(|a, _| a.start_game()).unwrap();
    w.submit(p[0], Choice::Heads).unwrap();
    w.submit(p[1], Choice::Heads).unwrap();
    w.submit(p[2], Choice::Tails).unwrap();
    w.submit(p[3], Choice::Tails).unwrap();
    w.submit(p[4], Choice::Tails).unwrap();
    w.resolve().unwrap();
    let result = w.submit(p[2], Choice::Heads);
    assert!(result.is_err());
    assert_eq!(result.unwrap_err().contract(), ArenaError::PlayerEliminated);
}

// ── capacity ───────────────────────────────────────────────────────────

fn initialize_arena(max_players: u32) -> World {
    let mut w = World::new();
    let deadline = w.now + 86_400;
    w.initialize(10_000_000, max_players, deadline, 0).unwrap();
    w
}

fn join_n(w: &mut World, n: u32) -> Vec<AccountId> {
    let mut players = Vec::new();
    for _ in 0..n {
        let p = w.generate();
        w.mint(p, 10_000_000);
        w.join(p).unwrap();
        players.push(p);
    }
    players
}

#[test]
fn capacity_minimum_two_players_game_runs_to_completion() {
    let mut w = initialize_arena(2);
    let p = join_n(&mut w, 2);
    w.call(|a, _| a.start_game()).unwrap();
    w.submit(p[0], Choice::Heads).unwrap();
    w.submit(p[1], Choice::Tails).unwrap();
    let result = w.resolve().unwrap();
    assert_eq!(result.survivors, 1);
    assert_eq!(result.eliminated, 1);
    assert_eq!(w.arena.game_state(), GameState::Finished);
    assert!(w.arena.winner().is_some());
}

#[test]
fn capacity_join_at_max_returns_arena_full_error() {
    let mut w = initialize_arena(3);
    join_n(&mut w, 3);
    let overflow = w.generate();
    let err = w.join(overflow);
    assert!(err.is_err());
    assert_eq!(err.unwrap_err().contract(), ArenaError::ArenaFull);
}

#[test]
fn auto_start_when_max_players_reached() {
    let mut w = initialize_arena(2);
    let p1 = w.generate();
    let p2 = w.generate();
    w.mint(p1, 10_000_000);
    w.mint(p2, 10_000_000);
    w.join(p1).unwrap();
    w.join(p2).unwrap();
    assert_eq!(w.arena.game_state(), GameState::InProgress);
    assert_eq!(w.arena.get_player_count().unwrap(), 2);
    assert_eq!(w.arena.storage.get_round(), 1);
    assert_eq!(w.arena.storage.get_round_deadline(), Some(w.now + 86_400 + 86_400));
}

#[test]
fn a_join_below_capacity_leaves_the_arena_open() {
    let mut w = initialize_arena(3);
    join_n(&mut w, 2);
    assert_eq!(w.arena.game_state(), GameState::Open);
    assert_eq!(w.arena.storage.get_round(), 0);
    assert_eq!(w.arena.storage.get_round_deadline(), None);
}

#[test]
fn filling_join_announces_the_start_and_start_game_keeps_it() {
    let mut w = initialize_arena(2);
    join_n(&mut w, 2);
    let n = w.arena.events.log.len();
    assert_eq!(w.arena.events.log[n - 2], ArenaEvent::GameStarted);
    assert_eq!(w.arena.events.log[n - 1], ArenaEvent::RoundStarted { round: 1, deadline: w.now + 2 * 86_400 });
    w.call(|a, _| a.start_game()).unwrap();
    assert_eq!(w.arena.events.log.len(), n);
    assert_eq!(w.arena.game_state(), GameState::InProgress);
}

#[test]
fn capacity_large_arena_tie_round_no_eliminations() {
    const N: u32 = 50;
    let mut w = initialize_arena(N);
    let p = join_n(&mut w, N);
    w.call(|a, _| a.start_game()).unwrap();
    for (i, q) in p.iter().enumerate() {
        let choice = if i % 2 == 0 { Choice::Heads } else { Choice::Tails };
        w.submit(*q, choice).unwrap();
    }
    let result = w.resolve().unwrap();
    assert_eq!(result.eliminated, 0);
    assert_eq!(result.survivors, N);
    assert_eq!(w.arena.game_state(), GameState::InProgress);
}

#[test]
fn capacity_hundred_players_minority_wins_eliminates_majority() {
    const N: u32 = 60;
    const HEADS: u32 = 18;
    const TAILS: u32 = 42;
    let mut w = initialize_arena(N);
    let p = join_n(&mut w, N);
    w.call(|a, _| a.start_game()).unwrap();
    for (i, q) in p.iter().enumerate() {
        let choice = if (i as u32) < HEADS { Choice::Heads } else { Choice::Tails };
        w.submit(*q, choice).unwrap();
    }
    let result = w.resolve().unwrap();
    assert_eq!(result.survivors, HEADS);
    assert_eq!(result.eliminated, TAILS);
}

#[test]
fn global_stats_updated_on_join_and_elimination() {
    let mut w = initialize_arena(4);
    let stats_initial = w.arena.get_global_stats();
    assert_eq!(stats_initial.total_arenas, 1);
    assert_eq!(stats_initial.live_survivors, 0);
    let p = join_n(&mut w, 2);
    w.call(|a, _| a.start_game()).unwrap();
    assert_eq!(w.arena.get_global_stats().live_survivors, 2);
    w.submit(p[0], Choice::Heads).unwrap();
    w.submit(p[1], Choice::Tails).unwrap();
    w.resolve().unwrap();
    assert_eq!(w.arena.get_global_stats().live_survivors, 1);
}

#[test]
fn rwa_yield_grows_prize_pool_and_returns_id() {
    let mut w = initialize_arena(10);
    let adapter = w.generate();
    let yield_amount: i128 = 5_000_000_000;
    let id = w.call(|a, _| a.receive_rwa_yield(adapter, yield_amount, "Treasury vault A".to_string(), 7)).unwrap();
    assert_eq!(id, 1u64);
    let id2 = w.call(|a, _| a.receive_rwa_yield(adapter, 1_000_000_000, "Treasury vault B".to_string(), 8)).unwrap();
    assert_eq!(id2, 2u64);
    let stats: GlobalStats = w.arena.get_global_stats();
    assert_eq!(stats.global_pool_total, yield_amount + 1_000_000_000i128);
    assert_eq!(w.arena.storage.get_prize_pool(), yield_amount + 1_000_000_000i128);
    let record = w.arena.storage.load_rwa_yield(2).unwrap();
    assert_eq!(record.adapter, adapter);
    assert_eq!(record.received_at, 8);
}

// ── further cases ──────────────────────────────────────────────────────

#[test]
fn absent_players_are_eliminated_before_counting() {
    let (mut w, p) = World::with_players(4, 100_000_000);
    w.call(|a, _| a.start_game()).unwrap();
    w.submit(p[0], Choice::Heads).unwrap();
    w.submit(p[1], Choice::Tails).unwrap();
    w.submit(p[2], Choice::Tails).unwrap();
    let r = w.resolve().unwrap();
    assert_eq!(r.eliminated, 3);
    assert_eq!(r.survivors, 1);
    assert_eq!(w.arena.winner(), Some(p[0]));
    assert_eq!(w.arena.game_state(), GameState::Finished);
}

#[test]
fn choices_are_cleared_after_a_round() {
    let (mut w, p) = World::with_players(5, 100_000_000);
    w.call(|a, _| a.start_game()).unwrap();
    w.submit(p[0], Choice::Heads).unwrap();
    w.submit(p[1], Choice::Heads).unwrap();
    w.submit(p[2], Choice::Tails).unwrap();
    w.submit(p[3], Choice::Tails).unwrap();
    w.submit(p[4], Choice::Tails).unwrap();
    let r1 = w.resolve().unwrap();
    assert_eq!((r1.eliminated, r1.survivors), (3, 2));
    assert!(w.arena.storage.load_player_choice(p[0]).is_none());
    // Nobody chose in round two: every remaining player is absent.
    let r2 = w.resolve().unwrap();
    assert_eq!((r2.round, r2.eliminated, r2.survivors), (2, 2, 0));
    assert_eq!(w.arena.game_state(), GameState::Finished);
    assert_eq!(w.arena.winner(), None);
}

#[test]
fn expire_arena_after_deadline_allows_refunds() {
    let (mut w, p) = World::with_players(1, 100_000_000);
    let early = w.call(|a, now| a.expire_arena(now));
    assert_eq!(early.unwrap_err().contract(), ArenaError::DeadlineTooSoon);
    w.now = START + 86_401;
    w.call(|a, now| a.expire_arena(now)).unwrap();
    assert_eq!(w.arena.game_state(), GameState::Cancelled);
    w.call(|a, _| a.claim_refund(p[0])).unwrap();
    assert_eq!(w.balance(p[0]), 100_000_000);
}

#[test]
fn cleanup_requires_a_closed_arena() {
    let (mut w, p) = World::with_players(2, 100_000_000);
    assert_eq!(w.call(|a, _| a.cleanup_arena()).unwrap_err().contract(), ArenaError::ArenaNotFinished);
    w.call(|a, _| a.cancel_arena()).unwrap();
    w.call(|a, _| a.cleanup_arena()).unwrap();
    assert!(w.arena.storage.load_all_players().is_empty());
    assert!(!w.arena.storage.is_player_active(p[0]));
    assert_eq!(w.arena.game_state(), GameState::Cancelled);
}

#[test]
fn uninitialized_arena_reports_config_not_found() {
    let mut w = World::new();
    assert_eq!(w.arena.get_config(), Err(ArenaError::ConfigNotFound));
    assert_eq!(w.arena.get_token(), Err(ArenaError::ConfigNotFound));
    assert_eq!(w.arena.game_state(), GameState::Open);
    assert_eq!(w.resolve().unwrap_err().contract(), ArenaError::ConfigNotFound);
    assert_eq!(w.arena.get_token().is_err(), true);
}

#[test]
fn submit_choice_requires_a_player_and_a_running_game() {
    let (mut w, p) = World::with_players(2, 100_000_000);
    assert_eq!(w.submit(p[0], Choice::Heads).unwrap_err().contract(), ArenaError::InvalidStateTransition);
    w.call(|a, _| a.start_game()).unwrap();
    let stranger = w.generate();
    assert_eq!(w.submit(stranger, Choice::Heads).unwrap_err().contract(), ArenaError::NotAPlayer);
}

#[test]
fn rwa_yield_is_refused_when_finished_or_not_positive() {
    let mut w = initialized();
    assert_eq!(
        w.call(|a, _| a.receive_rwa_yield(5, 0, "x".to_string(), 1)).unwrap_err().contract(),
        ArenaError::InvalidEntryFee
    );
    w.call(|a, _| a.start_game()).unwrap();
    w.call(|a, _| a.finish_game()).unwrap();
    assert_eq!(
        w.call(|a, _| a.receive_rwa_yield(5, 10, "x".to_string(), 1)).unwrap_err().contract(),
        ArenaError::ArenaAlreadyStarted
    );
}
