use std::collections::HashMap;

use inverse_arena::oracle::OracleContract;
use inverse_arena::rwa_adapter::RwaAdapter;
use inverse_arena::yield_arena::contract::{ArenaContract, CONTRACT_VERSION, PAGE_SIZE};
use inverse_arena::yield_arena::events::{ArenaCall, ArenaEvent};
use inverse_arena::yield_arena::storage::MIN_PLAYERS_TO_START;
use inverse_arena::yield_arena::types::{
    ArenaConfig, ArenaError, Choice, GameState, PlayerState, YieldSnapshot,
};
use inverse_arena::AccountId;
use soroban_sdk::Env;

const ARENA: AccountId = 9_000;
const VAULT: AccountId = 9_001;
const ORACLE: AccountId = 9_002;
const ADMIN: AccountId = 1;
const TOKEN: AccountId = 2;

fn config(state: GameState, player_count: u32, commit_deadline: u64) -> ArenaConfig {
    ArenaConfig {
        admin: ADMIN,
        stake_token: TOKEN,
        yield_vault: VAULT,
        entry_fee: 100,
        state,
        paused: false,
        player_count,
        cumulative_yield: 0,
        commit_deadline,
        round_count: 0,
        oracle_contract: ORACLE,
    }
}

/// An arena with its host: a clock, a token ledger, the oracle and the
/// yield vault it talks to.
struct World {
    env: Env,
    arena: ArenaContract,
    oracle: OracleContract,
    vault: RwaAdapter,
    now: u64,
    balances: HashMap<AccountId, i128>,
}

impl World {
    fn new() -> World {
        let mut oracle = OracleContract::new();
        oracle.initialize(ADMIN, 500).unwrap();
        let mut vault = RwaAdapter::new();
        vault.initialize(ADMIN, TOKEN).unwrap();
        World {
            env: Env::default(),
            arena: ArenaContract::new(),
            oracle,
            vault,
            now: 0,
            balances: HashMap::new(),
        }
    }

    /// An arena whose configuration and players are written straight into
    /// storage.
    fn with_stored(n: u64, cfg: ArenaConfig) -> (World, Vec<AccountId>) {
        let mut w = World::new();
        w.arena.storage.save_config(&cfg);
        let mut players = Vec::new();
        for i in 0..n {
            let p = 1_000 + i;
            w.arena.storage.add_player(p);
            players.push(p);
        }
        (w, players)
    }

    fn mint(&mut self, who: AccountId, amount: i128) {
        *self.balances.entry(who).or_insert(0) += amount;
    }

    fn balance(&self, who: AccountId) -> i128 {
        *self.balances.get(&who).unwrap_or(&0)
    }

    fn move_tokens(&mut self, from: AccountId, to: AccountId, amount: i128) -> bool {
        let have = self.balance(from);
        if have < amount {
            return false;
        }
        self.balances.insert(from, have - amount);
        self.mint(to, amount);
        true
    }

    /// Perform the host calls requested from index `done` on; `None` when a
    /// token movement fails. Returns what a vault withdrawal paid, if any.
    fn perform(&mut self, done: usize) -> Option<Option<i128>> {
        let calls: Vec<ArenaCall> = self.arena.calls[done..].to_vec();
        let mut withdrawn = None;
        for c in calls {
            match c {
                ArenaCall::TransferToArena { from, amount } => {
                    if !self.move_tokens(from, ARENA, amount) {
                        return None;
                    }
                }
                ArenaCall::TransferFromArena { to, amount } => {
                    if !self.move_tokens(ARENA, to, amount) {
                        return None;
                    }
                }
                ArenaCall::VaultDeposit { amount } => {
                    let _ = self.vault.deposit(ARENA, amount);
                }
                ArenaCall::VaultWithdrawAll => {
                    let balance = self.balance(VAULT);
                    withdrawn = match self.vault.withdraw_all(ARENA, balance) {
                        Ok(paid) => {
                            self.move_tokens(VAULT, ARENA, paid);
                            Some(paid)
                        }
                        Err(_) => None,
                    };
                }
                ArenaCall::UpdateWasm { .. } => {}
            }
        }
        Some(withdrawn)
    }

    fn call<T>(&mut self, f: impl FnOnce(&mut ArenaContract, &Env, u64) -> Result<T, ArenaError>) -> Result<T, Option<ArenaError>> {
        let snapshot = self.arena.clone();
        let balances = self.balances.clone();
        let done = self.arena.calls.len();
        let now = self.now;
        let r = f(&mut self.arena, &self.env, now).map_err(Some)?;
        if self.perform(done).is_none() {
            self.arena = snapshot;
            self.balances = balances;
            return Err(None);
        }
        Ok(r)
    }

    fn join(&mut self, p: AccountId) -> Result<(), Option<ArenaError>> {
        self.call(|a, _, _| a.join_arena(p))
    }

    fn start_round(&mut self, duration: u64) -> Result<(), Option<ArenaError>> {
        self.call(|a, _, now| a.start_round(duration, now))
    }

    fn resolve(&mut self) -> Result<(), Option<ArenaError>> {
        let bps = Some(self.oracle.get_current_yield_bps());
        let reading = if self.arena.storage.config.map(|c| c.yield_vault) == Some(VAULT) {
            Some(self.vault.balance_of(ARENA))
        } else {
            None
        };
        self.call(|a, _, now| a.resolve_round(now, bps, reading))
    }

    fn commit(&mut self, p: AccountId, choice: Choice, salt: &[u8; 32]) -> Result<(), Option<ArenaError>> {
        let c = ArenaContract::compute_commitment(&self.env, choice, salt);
        self.call(|a, _, _| a.submit_commitment(p, &c))
    }

    fn reveal_as(&mut self, p: AccountId, choice: Choice, salt: &[u8; 32]) -> Result<(), Option<ArenaError>> {
        self.call(|a, env, now| a.reveal_choice(env, p, choice, salt, now))
    }

    fn claim(&mut self, winner: AccountId) -> Result<i128, Option<ArenaError>> {
        let snapshot = self.arena.clone();
        let balances = self.balances.clone();
        let done = self.arena.calls.len();
        let payout = self.arena.claim(winner).map_err(Some)?;
        let withdrawn = match self.perform(done) {
            Some(w) => w,
            None => {
                self.arena = snapshot;
                self.balances = balances;
                return Err(None);
            }
        };
        let done = self.arena.calls.len();
        let total = self.arena.finish_claim(winner, &payout, withdrawn);
        if self.perform(done).is_none() {
            self.arena = snapshot;
            self.balances = balances;
            return Err(None);
        }
        Ok(total)
    }

    fn state(&self) -> GameState {
        self.arena.storage.load_config().unwrap().state
    }
}

fn salt(b: u8) -> [u8; 32] {
    [b; 32]
}

// ── player pages ───────────────────────────────────────────────────────

#[test]
fn zero_players() {
    let (w, _) = World::with_stored(0, config(GameState::Open, 0, u64::MAX));
    assert_eq!(w.arena.player_count(), 0);
    assert_eq!(w.arena.get_players(0).len(), 0);
}

#[test]
fn one_player() {
    let (w, _) = World::with_stored(1, config(GameState::Open, 0, u64::MAX));
    assert_eq!(w.arena.player_count(), 1);
    let page0 = w.arena.get_players(0);
    assert_eq!(page0.len(), 1);
    let (_addr, state) = page0[0];
    assert!(state.active);
    assert_eq!(state.rounds_survived, 0);
    assert_eq!(w.arena.get_players(1).len(), 0);
}

#[test]
fn fifty_one_players_cross_page_boundary() {
    let (w, _) = World::with_stored(51, config(GameState::Open, 0, u64::MAX));
    assert_eq!(w.arena.player_count(), 51);
    let page0 = w.arena.get_players(0);
    let page1 = w.arena.get_players(1);
    let page2 = w.arena.get_players(2);
    assert_eq!(page0.len() as u32, PAGE_SIZE);
    assert_eq!(page1.len(), 1);
    assert_eq!(page2.len(), 0);
    for (addr1, _) in page1.iter() {
        for (addr0, _) in page0.iter() {
            assert_ne!(addr0, addr1);
        }
    }
    assert_eq!((page0.len() + page1.len()) as u32, w.arena.player_count());
}

// ── commit and reveal ──────────────────────────────────────────────────

#[test]
fn valid_commit_and_reveal() {
    let (mut w, _) = World::with_stored(0, config(GameState::Open, 0, 0));
    let player: AccountId = 7;
    let s = salt(42);
    let commitment = ArenaContract::compute_commitment(&w.env, Choice::Tails, &s);
    w.arena.storage.save_commitment(player, 1, &commitment);
    w.reveal_as(player, Choice::Tails, &s).unwrap();
    assert_eq!(w.arena.storage.load_choice(player, 1), Some(Choice::Tails));
}

#[test]
fn reveal_hash_mismatch() {
    let (mut w, _) = World::with_stored(0, config(GameState::Open, 0, 0));
    let player: AccountId = 7;
    let s = salt(7);
    let commitment = ArenaContract::compute_commitment(&w.env, Choice::Heads, &s);
    w.arena.storage.save_commitment(player, 1, &commitment);
    let result = w.reveal_as(player, Choice::Tails, &s);
    assert!(result.is_err());
    assert_eq!(result, Err(Some(ArenaError::InvalidReveal)));
}

#[test]
fn reveal_before_deadline_fails() {
    let (mut w, _) = World::with_stored(0, config(GameState::Open, 0, 1));
    let player: AccountId = 7;
    let s = salt(3);
    let commitment = ArenaContract::compute_commitment(&w.env, Choice::Heads, &s);
    w.arena.storage.save_commitment(player, 1, &commitment);
    let result = w.reveal_as(player, Choice::Heads, &s);
    assert!(result.is_err());
    assert_eq!(result, Err(Some(ArenaError::RoundNotActive)));
}

#[test]
fn lib_double_reveal_fails() {
    let (mut w, _) = World::with_stored(0, config(GameState::Open, 0, 0));
    let player: AccountId = 7;
    let s = salt(9);
    let commitment = ArenaContract::compute_commitment(&w.env, Choice::Heads, &s);
    w.arena.storage.save_commitment(player, 1, &commitment);
    w.reveal_as(player, Choice::Heads, &s).unwrap();
    let result = w.reveal_as(player, Choice::Heads, &s);
    assert!(result.is_err());
    assert_eq!(result, Err(Some(ArenaError::ChoiceAlreadyRevealed)));
}

#[test]
fn reveal_without_commitment_fails() {
    let (mut w, _) = World::with_stored(0, config(GameState::Open, 0, 0));
    let result = w.reveal_as(7, Choice::Heads, &salt(5));
    assert!(result.is_err());
    assert_eq!(result, Err(Some(ArenaError::MissingCommitment)));
}

#[test]
fn commitment_is_sha256_of_choice_byte_and_salt() {
    let w = World::new();
    let s = salt(42);
    let c = ArenaContract::compute_commitment(&w.env, Choice::Tails, &s);
    let mut preimage = vec![1u8];
    preimage.extend_from_slice(&s);
    let expected: [u8; 32] =
        w.env.crypto().sha256(&soroban_sdk::Bytes::from_slice(&w.env, &preimage)).to_array();
    assert_eq!(c, expected);
    assert_ne!(c, s);
    assert_ne!(c, ArenaContract::compute_commitment(&w.env, Choice::Heads, &s));
}

// ── pause ──────────────────────────────────────────────────────────────

#[test]
fn pause_rejects_mutating_gameplay_entry_points() {
    let (mut w, _) = World::with_stored(0, config(GameState::Active, 1, 0));
    let player: AccountId = 7;
    let s = salt(1);
    let commitment = ArenaContract::compute_commitment(&w.env, Choice::Heads, &s);
    w.arena.storage.save_player(player, &PlayerState { active: true, rounds_survived: 0 });
    w.arena.storage.save_commitment(player, 1, &commitment);
    w.arena.storage.save_round_start(0);
    w.arena.storage.save_round_duration(0);
    w.call(|a, _, _| a.pause("emerg".to_string())).unwrap();
    assert_eq!(w.join(player), Err(Some(ArenaError::ContractPaused)));
    assert_eq!(w.call(|a, _, _| a.submit_commitment(player, &commitment)), Err(Some(ArenaError::ContractPaused)));
    assert_eq!(w.reveal_as(player, Choice::Heads, &s), Err(Some(ArenaError::ContractPaused)));
    assert_eq!(w.resolve(), Err(Some(ArenaError::ContractPaused)));
    let mut cfg = w.arena.storage.load_config().unwrap();
    cfg.state = GameState::Finished;
    w.arena.storage.save_config(&cfg);
    assert_eq!(w.claim(player), Err(Some(ArenaError::ContractPaused)));
}

#[test]
fn unpause_allows_mutating_gameplay_again() {
    let (mut w, _) = World::with_stored(0, config(GameState::Open, 0, u64::MAX));
    let player: AccountId = 7;
    let commitment = [2u8; 32];
    w.call(|a, _, _| a.pause("emerg".to_string())).unwrap();
    w.call(|a, _, _| a.unpause()).unwrap();
    w.call(|a, _, _| a.submit_commitment(player, &commitment)).unwrap();
    assert_eq!(w.arena.storage.load_commitment(player, 1).unwrap(), commitment);
    assert!(!w.arena.storage.load_config().unwrap().paused);
}

// ── rounds ─────────────────────────────────────────────────────────────

fn setup_started(duration: u64, start_ts: u64) -> World {
    let (mut w, _) = World::with_stored(0, config(GameState::Open, 2, 0));
    w.now = start_ts;
    w.start_round(duration).unwrap();
    w
}

#[test]
fn resolve_round_before_grace_elapsed_fails() {
    let mut w = setup_started(60, 1_000);
    w.now = 1_030;
    assert!(w.resolve().is_err());
    assert_eq!(w.resolve(), Err(Some(ArenaError::GracePeriodNotElapsed)));
    assert_eq!(w.state(), GameState::Active);
}

#[test]
fn resolve_round_after_grace_elapsed_succeeds() {
    let mut w = setup_started(60, 1_000);
    w.now = 1_061;
    w.resolve().unwrap();
    assert_eq!(w.state(), GameState::Finished);
}

#[test]
fn resolve_round_requires_an_active_round() {
    let (mut w, _) = World::with_stored(0, config(GameState::Open, 0, 0));
    assert!(w.resolve().is_err());
    assert_eq!(w.resolve(), Err(Some(ArenaError::RoundNotActive)));
}

#[test]
fn event_emitters_publish_expected_topics() {
    let mut w = World::new();
    let admin: AccountId = 1;
    let player: AccountId = 2;
    let events = &mut w.arena.events;
    events.initialized(admin);
    events.player_joined(player, 1);
    events.game_started(1, 60);
    events.round_resolved(1, 2, 1);
    events.player_eliminated(player, 1);
    events.game_finished(player, 1);
    events.prize_claimed(player, 105, 5);
    events.admin_changed(admin, player);
    assert_eq!(w.arena.events.log.len(), 8);
}

#[test]
fn total_yield_sums_round_snapshots() {
    let (mut w, _) = World::with_stored(0, config(GameState::Open, 0, u64::MAX));
    let mut cfg = w.arena.storage.load_config().unwrap();
    cfg.round_count = 3;
    cfg.cumulative_yield = 60;
    w.arena.storage.save_config(&cfg);
    for round in 1..=3u32 {
        w.arena.storage.save_yield_snapshot(round, &YieldSnapshot { round, rate_bps: 500, accrued: i128::from(round) * 10 });
    }
    assert_eq!(w.arena.get_total_yield(), 60);
}

#[test]
fn yield_is_tracked_across_rounds_from_vault_readings() {
    // Three players keep tying so the arena returns to Open after each round.
    let (mut w, players) = World::with_stored(4, config(GameState::Open, 4, 0));
    w.arena.storage.save_last_vault_balance(100);
    for (idx, balance) in [110i128, 125, 150].iter().enumerate() {
        w.now = 1_000 + idx as u64;
        w.start_round(0).unwrap();
        for (i, p) in players.iter().enumerate() {
            let choice = if i % 2 == 0 { Choice::Heads } else { Choice::Tails };
            let s = salt(i as u8 + 1);
            w.commit(*p, choice, &s).unwrap();
            w.reveal_as(*p, choice, &s).unwrap();
        }
        let bps = Some(500);
        let reading = Some(*balance);
        w.call(|a, _, now| a.resolve_round(now, bps, reading)).unwrap();
        assert_eq!(w.state(), GameState::Open);
    }
    assert_eq!(w.arena.get_total_yield(), 50);
    assert_eq!(w.arena.get_yield_snapshot(1).unwrap().accrued, 10);
    assert_eq!(w.arena.get_yield_snapshot(2).unwrap().accrued, 15);
    assert_eq!(w.arena.get_yield_snapshot(3).unwrap().accrued, 25);
    assert_eq!(w.arena.get_round_result(3).unwrap().survivors, 4);
}

#[test]
fn resolve_round_tracks_yield_across_three_vault_snapshots() {
    let (mut w, _) = World::with_stored(0, config(GameState::Open, 2, 0));
    w.arena.storage.save_last_vault_balance(100);
    for (idx, balance) in [110i128, 125, 150].iter().enumerate() {
        w.now = 1_000 + idx as u64;
        w.start_round(0).unwrap();
        let reading = Some(*balance);
        w.call(|a, _, now| a.resolve_round(now, Some(500), reading)).unwrap();
    }
    assert_eq!(w.arena.get_total_yield(), 50);
    assert_eq!(w.arena.get_yield_snapshot(1).unwrap().accrued, 10);
    assert_eq!(w.arena.get_yield_snapshot(2).unwrap().accrued, 15);
    assert_eq!(w.arena.get_yield_snapshot(3).unwrap().accrued, 25);
}

#[test]
fn start_round_restarts_a_finished_arena_but_not_an_active_one() {
    let (mut w, _) = World::with_stored(0, config(GameState::Finished, 2, 0));
    w.start_round(60).unwrap();
    assert_eq!(w.state(), GameState::Active);
    assert_eq!(w.start_round(60), Err(Some(ArenaError::InvalidGameState)));
    let (mut settled, _) = World::with_stored(0, config(GameState::Settled, 2, 0));
    assert_eq!(settled.start_round(60), Err(Some(ArenaError::InvalidGameState)));
}

#[test]
fn vault_decrease_accrues_nothing_and_is_reported() {
    let (mut w, _) = World::with_stored(0, config(GameState::Open, 2, 0));
    w.arena.storage.save_last_vault_balance(100);
    w.start_round(0).unwrap();
    w.call(|a, _, now| a.resolve_round(now, Some(500), Some(80))).unwrap();
    assert_eq!(w.arena.get_yield_snapshot(1).unwrap().accrued, 0);
    assert!(w.arena.events.log.contains(&ArenaEvent::VaultBalanceDecreased { previous_balance: 100, current_balance: 80 }));
}

// ── claim ──────────────────────────────────────────────────────────────

#[test]
fn claim_returns_already_claimed_when_flag_is_set() {
    let (mut w, _) = World::with_stored(0, config(GameState::Finished, 1, 0));
    let winner: AccountId = 7;
    w.arena.storage.save_player(winner, &PlayerState { active: true, rounds_survived: 1 });
    w.arena.storage.mark_prize_claimed();
    let err = w.claim(winner).err().expect("reentrant claim must error").expect("error must be a contract error");
    assert_eq!(err, ArenaError::PrizeAlreadyClaimed);
}

#[test]
fn claim_rejects_eliminated_player() {
    let (mut w, _) = World::with_stored(0, config(GameState::Finished, 1, 0));
    let eliminated: AccountId = 7;
    w.arena.storage.save_player(eliminated, &PlayerState { active: false, rounds_survived: 0 });
    let err = w.claim(eliminated).err().expect("eliminated player claim must error").expect("error must be a contract error");
    assert_eq!(err, ArenaError::PlayerEliminated);
}

// ── admin ──────────────────────────────────────────────────────────────

#[test]
fn propose_then_accept_admin_changes_admin() {
    let (mut w, _) = World::with_stored(0, config(GameState::Open, 0, 0));
    let new_admin: AccountId = 55;
    w.call(|a, _, _| a.propose_admin(new_admin)).unwrap();
    w.call(|a, _, _| a.accept_admin()).unwrap();
    assert_eq!(w.arena.storage.load_config().unwrap().admin, new_admin);
}

#[test]
fn accept_without_propose_fails() {
    let (mut w, _) = World::with_stored(0, config(GameState::Open, 0, 0));
    let err = w.call(|a, _, _| a.accept_admin()).err().expect("accept without propose must error").expect("error must be a contract error");
    assert_eq!(err, ArenaError::NoPendingAdmin);
}

#[test]
fn propose_admin_updates_pending_admin() {
    let (mut w, _) = World::with_stored(0, config(GameState::Open, 0, 0));
    let new_admin: AccountId = 55;
    w.call(|a, _, _| a.propose_admin(new_admin)).unwrap();
    let pending = w.arena.storage.load_pending_admin().unwrap();
    assert_eq!(pending.new_admin, new_admin);
}

// ── starting rounds and player limits ──────────────────────────────────

#[test]
fn start_round_rejected_with_zero_players() {
    let (mut w, _) = World::with_stored(0, config(GameState::Open, 0, 0));
    assert_eq!(w.start_round(60), Err(Some(ArenaError::NotEnoughPlayers)));
}

#[test]
fn start_round_rejected_with_one_player() {
    let (mut w, _) = World::with_stored(0, config(GameState::Open, 1, 0));
    assert_eq!(w.start_round(60), Err(Some(ArenaError::NotEnoughPlayers)));
}

#[test]
fn start_round_succeeds_with_two_or_more_players() {
    let _first = setup_started(60, 0);
    let (mut w, _) = World::with_stored(0, config(GameState::Open, 2, 0));
    w.start_round(60).unwrap();
    assert_eq!(w.state(), GameState::Active);
    assert_eq!(MIN_PLAYERS_TO_START, 2);
}

#[test]
fn configure_player_limits_rejects_min_greater_than_max() {
    let (mut w, _) = World::with_stored(0, config(GameState::Open, 0, u64::MAX));
    assert_eq!(w.call(|a, _, _| a.configure_player_limits(4, 3)), Err(Some(ArenaError::InvalidPlayerLimits)));
}

#[test]
fn configure_player_limits_accepts_min_equal_max_boundary() {
    let (mut w, _) = World::with_stored(0, config(GameState::Open, 0, u64::MAX));
    w.call(|a, _, _| a.configure_player_limits(2, 2)).unwrap();
}

#[test]
fn configure_player_limits_rejects_min_below_start_boundary() {
    let (mut w, _) = World::with_stored(0, config(GameState::Open, 0, u64::MAX));
    assert_eq!(w.call(|a, _, _| a.configure_player_limits(1, 2)), Err(Some(ArenaError::InvalidPlayerLimits)));
}

#[test]
fn join_respects_configured_max_players() {
    let (mut w, _) = World::with_stored(0, config(GameState::Open, 0, 0));
    w.arena.storage.save_player_limits(2, 2);
    let (p1, p2, p3) = (11, 12, 13);
    w.mint(p1, 100);
    w.mint(p2, 100);
    w.mint(p3, 100);
    w.join(p1).unwrap();
    w.join(p2).unwrap();
    assert_eq!(w.join(p3), Err(Some(ArenaError::ArenaFull)));
}

#[test]
fn version_reports_contract_version() {
    assert_eq!(ArenaContract::version(), CONTRACT_VERSION);
}

// ── a whole game ───────────────────────────────────────────────────────

#[test]
fn full_game_lifecycle_commit_reveal() {
    let mut w = World::new();
    let (p1, p2, p3, p4) = (11, 12, 13, 14);
    for p in [p1, p2, p3, p4] {
        w.mint(p, 100);
        assert_eq!(w.balance(p), 100);
    }
    w.call(|a, _, _| a.initialize(ADMIN, TOKEN, VAULT, 100, ORACLE, true)).unwrap();
    assert_eq!(w.arena.player_count(), 0);
    for p in [p1, p2, p3, p4] {
        w.join(p).unwrap();
    }
    assert_eq!(w.arena.player_count(), 4);
    for p in [p1, p2, p3, p4] {
        assert_eq!(w.balance(p), 0);
    }
    assert_eq!(w.balance(ARENA), 400);

    let start_ts = 1000;
    w.now = start_ts;
    w.start_round(3600).unwrap();
    let choices = [(p1, Choice::Tails, salt(1)), (p2, Choice::Heads, salt(2)), (p3, Choice::Heads, salt(3)), (p4, Choice::Heads, salt(4))];
    for (p, c, s) in choices.iter() {
        w.commit(*p, *c, s).unwrap();
    }
    w.now = start_ts + 3601;
    for (p, c, s) in choices.iter() {
        w.reveal_as(*p, *c, s).unwrap();
    }
    w.resolve().unwrap();

    let players = w.arena.get_players(0);
    assert_eq!(players.len(), 4);
    let active = |p: AccountId| players.iter().find(|(a, _)| *a == p).map(|(_, s)| s.active).unwrap_or(false);
    assert!(active(p1), "Player 1 (minority) must survive");
    assert!(!active(p2));
    assert!(!active(p3));
    assert!(!active(p4));

    // The vault holds the principal plus 5% yield.
    w.mint(VAULT, 420);
    w.claim(p1).unwrap();
    assert_eq!(w.balance(p1), 420);
    assert_eq!(w.balance(p2), 0);
    assert_eq!(w.balance(p3), 0);
    assert_eq!(w.balance(p4), 0);

    let log = &w.arena.events.log;
    let has = |f: &dyn Fn(&ArenaEvent) -> bool| log.iter().any(|e| f(e));
    assert!(has(&|e| matches!(e, ArenaEvent::Initialized { .. })));
    assert!(has(&|e| matches!(e, ArenaEvent::PlayerJoined { .. })));
    assert!(has(&|e| matches!(e, ArenaEvent::GameStarted { .. })));
    assert!(has(&|e| matches!(e, ArenaEvent::RoundResolved { .. })));
    assert!(has(&|e| matches!(e, ArenaEvent::PlayerEliminated { .. })));
    assert!(has(&|e| matches!(e, ArenaEvent::GameFinished { .. })));
    assert!(has(&|e| matches!(e, ArenaEvent::PrizeClaimed { .. })));
}

#[test]
fn second_join_is_refused_and_charges_nothing() {
    let mut w = World::new();
    w.mint(11, 200);
    w.call(|a, _, _| a.initialize(ADMIN, TOKEN, VAULT, 100, ORACLE, true)).unwrap();
    w.join(11).unwrap();
    assert_eq!(w.join(11), Err(Some(ArenaError::AlreadyJoined)));
    assert_eq!(w.arena.player_count(), 1);
    assert_eq!(w.arena.storage.load_all_players(), vec![11]);
    assert_eq!(w.balance(11), 100);
}

#[test]
fn claim_after_a_successful_claim_answers_prize_already_claimed() {
    let mut w = World::new();
    let (p1, p2, p3) = (11, 12, 13);
    for p in [p1, p2, p3] {
        w.mint(p, 100);
    }
    w.call(|a, _, _| a.initialize(ADMIN, TOKEN, VAULT, 100, ORACLE, true)).unwrap();
    for p in [p1, p2, p3] {
        w.join(p).unwrap();
    }
    w.now = 1_000;
    w.start_round(10).unwrap();
    let choices = [(p1, Choice::Heads, salt(1)), (p2, Choice::Tails, salt(2)), (p3, Choice::Tails, salt(3))];
    for (p, c, s) in choices.iter() {
        w.commit(*p, *c, s).unwrap();
    }
    w.now = 1_011;
    for (p, c, s) in choices.iter() {
        w.reveal_as(*p, *c, s).unwrap();
    }
    w.resolve().unwrap();
    assert_eq!(w.state(), GameState::Finished);
    w.mint(VAULT, 315);
    w.claim(p1).unwrap();
    assert_eq!(w.state(), GameState::Settled);
    assert_eq!(w.claim(p1), Err(Some(ArenaError::PrizeAlreadyClaimed)));
    assert_eq!(w.claim(p2), Err(Some(ArenaError::PrizeAlreadyClaimed)));
}

#[test]
fn increment_and_decrement_creator_active_pools() {
    let mut w = World::new();
    let creator: AccountId = 5;
    w.arena.storage.save_config(&config(GameState::Open, 0, 0));
    w.arena.storage.increment_creator_active_pools(creator);
    assert_eq!(w.arena.storage.load_creator_active_pools(creator), 1);
    w.arena.storage.save_config(&config(GameState::Finished, 0, 0));
    w.arena.storage.decrement_creator_active_pools(creator);
    assert_eq!(w.arena.storage.load_creator_active_pools(creator), 0);
    w.arena.storage.decrement_creator_active_pools(creator);
    assert_eq!(w.arena.storage.load_creator_active_pools(creator), 0);
}

#[test]
fn decrement_creator_active_pools_never_underflows() {
    let mut w = World::new();
    let creator: AccountId = 5;
    w.arena.storage.decrement_creator_active_pools(creator);
    w.arena.storage.decrement_creator_active_pools(creator);
    assert_eq!(w.arena.storage.load_creator_active_pools(creator), 0);
}

// ── further cases ──────────────────────────────────────────────────────

#[test]
fn initialize_twice_and_unreachable_vault_are_refused() {
    let mut w = World::new();
    assert_eq!(w.call(|a, _, _| a.initialize(ADMIN, TOKEN, VAULT, 100, ORACLE, false)), Err(Some(ArenaError::InvalidVaultAddress)));
    w.call(|a, _, _| a.initialize(ADMIN, TOKEN, VAULT, 100, ORACLE, true)).unwrap();
    assert_eq!(w.call(|a, _, _| a.initialize(ADMIN, TOKEN, VAULT, 100, ORACLE, true)), Err(Some(ArenaError::AlreadyInitialized)));
}

#[test]
fn creator_and_banned_players_cannot_join() {
    let mut w = World::new();
    w.call(|a, _, _| a.initialize(ADMIN, TOKEN, VAULT, 100, ORACLE, true)).unwrap();
    assert_eq!(w.join(ADMIN), Err(Some(ArenaError::CreatorCannotJoin)));
    w.call(|a, _, _| a.ban_player(30)).unwrap();
    assert!(w.arena.is_player_banned(30));
    assert_eq!(w.join(30), Err(Some(ArenaError::PlayerBanned)));
    w.call(|a, _, _| a.unban_player(30)).unwrap();
    w.mint(30, 100);
    assert!(w.join(30).is_ok());
}

#[test]
fn join_without_tokens_is_rolled_back() {
    let mut w = World::new();
    w.call(|a, _, _| a.initialize(ADMIN, TOKEN, VAULT, 100, ORACLE, true)).unwrap();
    assert_eq!(w.join(40), Err(None));
    assert_eq!(w.arena.player_count(), 0);
}

#[test]
fn cancel_refunds_every_player() {
    let mut w = World::new();
    w.call(|a, _, _| a.initialize(ADMIN, TOKEN, VAULT, 100, ORACLE, true)).unwrap();
    for p in [21, 22] {
        w.mint(p, 100);
        w.join(p).unwrap();
    }
    w.mint(VAULT, 210);
    let done = w.arena.calls.len();
    w.arena.cancel_arena().unwrap();
    let refunds: Vec<ArenaCall> = w.arena.calls[done..].iter().copied().filter(|c| matches!(c, ArenaCall::TransferFromArena { .. })).collect();
    assert_eq!(refunds, vec![ArenaCall::TransferFromArena { to: 21, amount: 100 }, ArenaCall::TransferFromArena { to: 22, amount: 100 }]);
    assert_eq!(w.state(), GameState::Cancelled);
}
