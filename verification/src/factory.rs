//! The factory: deploys arena pools for whitelisted hosts and enforces
//! protocol-level rules (minimum stake, active pool limits, pause).
//!
//! Creating a pool takes two steps around the host's deployment: `create_pool`
//! checks the request and reserves a pool id (with the salt and code hash to
//! deploy), and `record_pool` records the deployed arena.

use vstd::prelude::*;

use std::collections::HashMap;

use crate::AccountId;

verus! {

broadcast use vstd::std_specs::hash::group_hash_axioms;

/// The largest page that `get_arenas` returns.
pub const MAX_PAGE_SIZE: u32 = 50;

/// The active pool limit per host, unless configured.
pub const DEFAULT_MAX_ACTIVE_POOLS: u32 = 10;

/// Parameters of a pool that a host asks the factory to create.
#[derive(Clone, Copy, PartialEq, Eq, Structural, Debug)]
pub struct PoolConfig {
    pub stake_token: AccountId,
    pub yield_vault: AccountId,
    pub entry_fee: i128,
    pub oracle_contract: AccountId,
}

/// Lifecycle status of a deployed arena as tracked by the factory.
#[derive(Clone, Copy, PartialEq, Eq, Structural, Debug)]
pub enum ArenaStatus {
    Pending,
    Active,
    Finished,
    Cancelled,
}

/// What the factory records about a deployed arena pool.
#[derive(Clone, Copy, PartialEq, Eq, Structural, Debug)]
pub struct ArenaMetadata {
    pub arena_address: AccountId,
    pub pool_id: u32,
    pub host: AccountId,
    pub entry_fee: i128,
    pub status: ArenaStatus,
    pub created_at: u64,
}

/// The creator of a deployed arena and the entry fee it was created with.
#[derive(Clone, Copy, PartialEq, Eq, Structural, Debug)]
pub struct CreatorStakeRecord {
    pub creator: AccountId,
    pub amount: i128,
}

/// Errors returned by factory entry points.
#[derive(Clone, Copy, PartialEq, Eq, Structural, Debug)]
pub enum FactoryError {
    NotInitialized,
    AlreadyInitialized,
    Unauthorized,
    InvalidStakeAmount,
    InsufficientCreatorStake,
    ArenaNotFound,
    StakeBelowMinimum,
    HostNotWhitelisted,
    WasmHashNotSet,
    PoolLimitReached,
    InvalidVault,
    InvalidOracle,
    MaxActivePoolsReached,
    PoolNotFound,
    ContractPaused,
}

/// An event published by the factory.
#[derive(Clone, Copy, PartialEq, Eq, Debug)]
pub enum FactoryEvent {
    Initialized { admin: AccountId, min_stake: i128 },
    WasmHashUpdated { wasm_hash: [u8; 32] },
    WhitelistAdded { host: AccountId },
    WhitelistRemoved { host: AccountId },
    VaultAdded { vault: AccountId },
    VaultRemoved { vault: AccountId },
    OracleAdded { oracle: AccountId },
    OracleRemoved { oracle: AccountId },
    MaxActivePoolsConfigured { max: u32 },
    Paused,
    Unpaused,
    PoolReleased { creator: AccountId },
    PoolCreated { pool_id: u32, host: AccountId, entry_fee: i128, arena: AccountId },
    PoolStatusUpdated { pool_id: u32, status: ArenaStatus },
}

/// The arguments with which a new pool's arena is initialised.
#[derive(Clone, Copy, PartialEq, Eq, Structural, Debug)]
pub struct ArenaInit {
    pub admin: AccountId,
    pub stake_token: AccountId,
    pub yield_vault: AccountId,
    pub entry_fee: i128,
    pub oracle_contract: AccountId,
}

/// The arena initialisation of a pool that `host` requests with `config`:
/// the host becomes the arena's admin, and the rest comes from the config.
pub open spec fn arena_init(host: AccountId, config: PoolConfig) -> ArenaInit {
    ArenaInit {
        admin: host,
        stake_token: config.stake_token,
        yield_vault: config.yield_vault,
        entry_fee: config.entry_fee,
        oracle_contract: config.oracle_contract,
    }
}

/// What the host has to do for a new pool: deploy the arena code under a
/// salt derived from the pool id, and initialise the arena with `init`.
/// `host` and `config` are the request the pool was reserved for.
#[derive(Clone, Copy, PartialEq, Eq, Debug)]
pub struct PoolDeployment {
    pub pool_id: u32,
    pub salt: [u8; 32],
    pub wasm_hash: [u8; 32],
    pub host: AccountId,
    pub config: PoolConfig,
    pub init: ArenaInit,
}

/// The stored state of the factory.
pub struct FactoryStorage {
    pub admin: Option<AccountId>,
    pub min_stake: Option<i128>,
    pub arena_wasm_hash: Option<[u8; 32]>,
    /// The last pool id handed out.
    pub pool_sequence: u32,
    pub whitelisted: HashMap<AccountId, bool>,
    pub approved_vaults: HashMap<AccountId, bool>,
    pub approved_oracles: HashMap<AccountId, bool>,
    /// Creator records, keyed by arena.
    pub creator_stakes: HashMap<AccountId, CreatorStakeRecord>,
    /// Active pools, keyed by creator.
    pub active_pool_counts: HashMap<AccountId, u32>,
    pub max_active_pools: Option<u32>,
    /// The number of pools recorded.
    pub pool_count: u32,
    pub pools: HashMap<u32, ArenaMetadata>,
    pub paused: bool,
    pub supported_tokens: HashMap<AccountId, bool>,
}

/// The mathematical view of the factory's stored state.
pub struct FactoryStorageView {
    pub admin: Option<AccountId>,
    pub min_stake: Option<i128>,
    pub arena_wasm_hash: Option<[u8; 32]>,
    pub pool_sequence: u32,
    pub whitelisted: Map<AccountId, bool>,
    pub approved_vaults: Map<AccountId, bool>,
    pub approved_oracles: Map<AccountId, bool>,
    pub creator_stakes: Map<AccountId, CreatorStakeRecord>,
    pub active_pool_counts: Map<AccountId, u32>,
    pub max_active_pools: Option<u32>,
    pub pool_count: u32,
    pub pools: Map<u32, ArenaMetadata>,
    pub paused: bool,
    pub supported_tokens: Map<AccountId, bool>,
}

impl View for FactoryStorage {
    type V = FactoryStorageView;

    open spec fn view(&self) -> FactoryStorageView {
        FactoryStorageView {
            admin: self.admin,
            min_stake: self.min_stake,
            arena_wasm_hash: self.arena_wasm_hash,
            pool_sequence: self.pool_sequence,
            whitelisted: self.whitelisted@,
            approved_vaults: self.approved_vaults@,
            approved_oracles: self.approved_oracles@,
            creator_stakes: self.creator_stakes@,
            active_pool_counts: self.active_pool_counts@,
            max_active_pools: self.max_active_pools,
            pool_count: self.pool_count,
            pools: self.pools@,
            paused: self.paused,
            supported_tokens: self.supported_tokens@,
        }
    }
}

/// A flag of a per-account map; unset flags are off.
pub open spec fn flag(m: Map<AccountId, bool>, k: AccountId) -> bool {
    m.contains_key(k) && m[k]
}

/// The active pools of a creator; zero if none recorded.
pub open spec fn active_pools_of(s: FactoryStorageView, creator: AccountId) -> u32 {
    if s.active_pool_counts.contains_key(creator) {
        s.active_pool_counts[creator]
    } else {
        0
    }
}

/// The active pool limit: the configured one or the default.
pub open spec fn max_active_pools_of(s: FactoryStorageView) -> u32 {
    match s.max_active_pools {
        Some(m) => m,
        None => DEFAULT_MAX_ACTIVE_POOLS,
    }
}

/// The value at `m[k]` as an option.
pub open spec fn lookup<K, V>(m: Map<K, V>, k: K) -> Option<V> {
    if m.contains_key(k) {
        Some(m[k])
    } else {
        None
    }
}

impl FactoryStorage {
    /// Nothing stored.
    pub fn new() -> (s: FactoryStorage)
        ensures
            s@.admin is None,
            s@.min_stake is None,
            s@.arena_wasm_hash is None,
            s@.pool_sequence == 0,
            s@.whitelisted == Map::<AccountId, bool>::empty(),
            s@.approved_vaults == Map::<AccountId, bool>::empty(),
            s@.approved_oracles == Map::<AccountId, bool>::empty(),
            s@.creator_stakes == Map::<AccountId, CreatorStakeRecord>::empty(),
            s@.active_pool_counts == Map::<AccountId, u32>::empty(),
            s@.max_active_pools is None,
            s@.pool_count == 0,
            s@.pools == Map::<u32, ArenaMetadata>::empty(),
            !s@.paused,
            s@.supported_tokens == Map::<AccountId, bool>::empty(),
    {
        FactoryStorage {
            admin: None,
            min_stake: None,
            arena_wasm_hash: None,
            pool_sequence: 0,
            whitelisted: HashMap::new(),
            approved_vaults: HashMap::new(),
            approved_oracles: HashMap::new(),
            creator_stakes: HashMap::new(),
            active_pool_counts: HashMap::new(),
            max_active_pools: None,
            pool_count: 0,
            pools: HashMap::new(),
            paused: false,
            supported_tokens: HashMap::new(),
        }
    }

    pub fn has_admin(&self) -> (b: bool)
        ensures
            b == self@.admin is Some,
    {
        self.admin.is_some()
    }

    pub fn save_admin(&mut self, admin: AccountId)
        ensures
            final(self)@ == (FactoryStorageView { admin: Some(admin), ..old(self)@ }),
    {
        self.admin = Some(admin);
    }

    /// The admin, or `NotInitialized`.
    pub fn load_admin(&self) -> (r: Result<AccountId, FactoryError>)
        ensures
            r == (match self@.admin {
                Some(a) => Ok::<AccountId, FactoryError>(a),
                None => Err(FactoryError::NotInitialized),
            }),
    {
        match self.admin {
            Some(a) => Ok(a),
            None => Err(FactoryError::NotInitialized),
        }
    }

    pub fn save_min_stake(&mut self, min_stake: i128)
        ensures
            final(self)@ == (FactoryStorageView { min_stake: Some(min_stake), ..old(self)@ }),
    {
        self.min_stake = Some(min_stake);
    }

    /// The minimum entry fee, or `NotInitialized`.
    pub fn load_min_stake(&self) -> (r: Result<i128, FactoryError>)
        ensures
            r == (match self@.min_stake {
                Some(m) => Ok::<i128, FactoryError>(m),
                None => Err(FactoryError::NotInitialized),
            }),
    {
        match self.min_stake {
            Some(m) => Ok(m),
            None => Err(FactoryError::NotInitialized),
        }
    }

    pub fn set_whitelisted(&mut self, host: AccountId, whitelisted: bool)
        ensures
            final(self)@ == (FactoryStorageView {
                whitelisted: old(self)@.whitelisted.insert(host, whitelisted),
                ..old(self)@
            }),
    {
        self.whitelisted.insert(host, whitelisted);
    }

    pub fn is_whitelisted(&self, host: AccountId) -> (b: bool)
        ensures
            b == flag(self@.whitelisted, host),
    {
        match self.whitelisted.get(&host) {
            Some(b) => *b,
            None => false,
        }
    }

    pub fn save_arena_wasm_hash(&mut self, wasm_hash: [u8; 32])
        ensures
            final(self)@ == (FactoryStorageView { arena_wasm_hash: Some(wasm_hash), ..old(self)@ }),
    {
        self.arena_wasm_hash = Some(wasm_hash);
    }

    /// The arena code hash, or `WasmHashNotSet`.
    pub fn load_arena_wasm_hash(&self) -> (r: Result<[u8; 32], FactoryError>)
        ensures
            r == (match self@.arena_wasm_hash {
                Some(h) => Ok::<[u8; 32], FactoryError>(h),
                None => Err(FactoryError::WasmHashNotSet),
            }),
    {
        match self.arena_wasm_hash {
            Some(h) => Ok(h),
            None => Err(FactoryError::WasmHashNotSet),
        }
    }

    /// Hand out the next pool id, or `PoolLimitReached` once all `u32` ids
    /// are used.
    pub fn next_pool_id(&mut self) -> (r: Result<u32, FactoryError>)
        ensures
            old(self)@.pool_sequence == u32::MAX ==> r == Err::<u32, FactoryError>(
                FactoryError::PoolLimitReached,
            ) && final(self)@ == old(self)@,
            old(self)@.pool_sequence < u32::MAX ==> r == Ok::<u32, FactoryError>(
                (old(self)@.pool_sequence + 1) as u32,
            ) && final(self)@ == (FactoryStorageView {
                pool_sequence: (old(self)@.pool_sequence + 1) as u32,
                ..old(self)@
            }),
    {
        let next = match self.pool_sequence.checked_add(1) {
            Some(n) => n,
            None => return Err(FactoryError::PoolLimitReached),
        };
        self.pool_sequence = next;
        Ok(next)
    }

    pub fn set_approved_vault(&mut self, vault: AccountId, approved: bool)
        ensures
            final(self)@ == (FactoryStorageView {
                approved_vaults: old(self)@.approved_vaults.insert(vault, approved),
                ..old(self)@
            }),
    {
        self.approved_vaults.insert(vault, approved);
    }

    pub fn is_approved_vault(&self, vault: AccountId) -> (b: bool)
        ensures
            b == flag(self@.approved_vaults, vault),
    {
        match self.approved_vaults.get(&vault) {
            Some(b) => *b,
            None => false,
        }
    }

    pub fn set_approved_oracle(&mut self, oracle: AccountId, approved: bool)
        ensures
            final(self)@ == (FactoryStorageView {
                approved_oracles: old(self)@.approved_oracles.insert(oracle, approved),
                ..old(self)@
            }),
    {
        self.approved_oracles.insert(oracle, approved);
    }

    pub fn is_approved_oracle(&self, oracle: AccountId) -> (b: bool)
        ensures
            b == flag(self@.approved_oracles, oracle),
    {
        match self.approved_oracles.get(&oracle) {
            Some(b) => *b,
            None => false,
        }
    }

    pub fn save_creator_stake(&mut self, arena: AccountId, record: &CreatorStakeRecord)
        ensures
            final(self)@ == (FactoryStorageView {
                creator_stakes: old(self)@.creator_stakes.insert(arena, *record),
                ..old(self)@
            }),
    {
        self.creator_stakes.insert(arena, *record);
    }

    pub fn load_creator_stake(&self, arena: AccountId) -> (r: Option<CreatorStakeRecord>)
        ensures
            r == lookup(self@.creator_stakes, arena),
    {
        match self.creator_stakes.get(&arena) {
            Some(r) => Some(*r),
            None => None,
        }
    }

    pub fn load_active_pool_count(&self, creator: AccountId) -> (n: u32)
        ensures
            n == active_pools_of(self@, creator),
    {
        match self.active_pool_counts.get(&creator) {
            Some(n) => *n,
            None => 0,
        }
    }

    pub fn save_active_pool_count(&mut self, creator: AccountId, count: u32)
        ensures
            final(self)@ == (FactoryStorageView {
                active_pool_counts: old(self)@.active_pool_counts.insert(creator, count),
                ..old(self)@
            }),
    {
        self.active_pool_counts.insert(creator, count);
    }

    /// Count one more active pool of a creator; returns the new count.
    pub fn increment_active_pool_count(&mut self, creator: AccountId) -> (n: u32)
        requires
            active_pools_of(old(self)@, creator) < u32::MAX,
        ensures
            n == active_pools_of(old(self)@, creator) + 1,
            final(self)@ == (FactoryStorageView {
                active_pool_counts: old(self)@.active_pool_counts.insert(creator, n),
                ..old(self)@
            }),
    {
        let current = self.load_active_pool_count(creator);
        let new = current + 1;
        self.save_active_pool_count(creator, new);
        new
    }

    /// Count one fewer active pool of a creator, unless it has none;
    /// returns the new count.
    pub fn decrement_active_pool_count(&mut self, creator: AccountId) -> (n: u32)
        ensures
            active_pools_of(old(self)@, creator) > 0 ==> n == active_pools_of(old(self)@, creator)
                - 1 && final(self)@ == (FactoryStorageView {
                active_pool_counts: old(self)@.active_pool_counts.insert(creator, n),
                ..old(self)@
            }),
            active_pools_of(old(self)@, creator) == 0 ==> n == 0 && final(self)@ == old(self)@,
    {
        let current = self.load_active_pool_count(creator);
        if current > 0 {
            let new = current - 1;
            self.save_active_pool_count(creator, new);
            new
        } else {
            0
        }
    }

    pub fn is_paused(&self) -> (b: bool)
        ensures
            b == self@.paused,
    {
        self.paused
    }

    pub fn set_paused(&mut self, paused: bool)
        ensures
            final(self)@ == (FactoryStorageView { paused, ..old(self)@ }),
    {
        self.paused = paused;
    }

    pub fn pool_count(&self) -> (n: u32)
        ensures
            n == self@.pool_count,
    {
        self.pool_count
    }

    pub fn save_pool(&mut self, pool_id: u32, metadata: &ArenaMetadata)
        ensures
            final(self)@ == (FactoryStorageView {
                pools: old(self)@.pools.insert(pool_id, *metadata),
                ..old(self)@
            }),
    {
        self.pools.insert(pool_id, *metadata);
    }

    pub fn load_pool(&self, pool_id: u32) -> (r: Option<ArenaMetadata>)
        ensures
            r == lookup(self@.pools, pool_id),
    {
        match self.pools.get(&pool_id) {
            Some(m) => Some(*m),
            None => None,
        }
    }

    /// Set the status of a recorded pool; nothing happens for an unknown
    /// pool.
    pub fn update_pool_status(&mut self, pool_id: u32, status: ArenaStatus)
        ensures
            old(self)@.pools.contains_key(pool_id) ==> final(self)@ == (FactoryStorageView {
                pools: old(self)@.pools.insert(
                    pool_id,
                    ArenaMetadata { status, ..old(self)@.pools[pool_id] },
                ),
                ..old(self)@
            }),
            !old(self)@.pools.contains_key(pool_id) ==> final(self)@ == old(self)@,
    {
        if let Some(meta) = self.load_pool(pool_id) {
            let updated = ArenaMetadata { status, ..meta };
            self.save_pool(pool_id, &updated);
        }
    }

    /// Count one more recorded pool; returns the new count.
    pub fn increment_pool_count(&mut self) -> (n: u32)
        requires
            old(self)@.pool_count < u32::MAX,
        ensures
            n == old(self)@.pool_count + 1,
            final(self)@ == (FactoryStorageView { pool_count: n, ..old(self)@ }),
    {
        let count = self.pool_count + 1;
        self.pool_count = count;
        count
    }

    pub fn has_max_active_pools(&self) -> (b: bool)
        ensures
            b == self@.max_active_pools is Some,
    {
        self.max_active_pools.is_some()
    }

    /// The active pool limit; ten unless configured.
    pub fn load_max_active_pools(&self) -> (n: u32)
        ensures
            n == max_active_pools_of(self@),
    {
        match self.max_active_pools {
            Some(m) => m,
            None => DEFAULT_MAX_ACTIVE_POOLS,
        }
    }

    pub fn save_max_active_pools(&mut self, max: u32)
        ensures
            final(self)@ == (FactoryStorageView { max_active_pools: Some(max), ..old(self)@ }),
    {
        self.max_active_pools = Some(max);
    }

    pub fn set_supported_token(&mut self, token: AccountId, supported: bool)
        ensures
            final(self)@ == (FactoryStorageView {
                supported_tokens: old(self)@.supported_tokens.insert(token, supported),
                ..old(self)@
            }),
    {
        self.supported_tokens.insert(token, supported);
    }

    pub fn is_supported_token(&self, token: AccountId) -> (b: bool)
        ensures
            b == flag(self@.supported_tokens, token),
    {
        match self.supported_tokens.get(&token) {
            Some(b) => *b,
            None => false,
        }
    }
}

/// Byte `i` of the deployment salt of a pool: 28 zero bytes followed by
/// the pool id in big-endian order.
pub open spec fn salt_byte(pool_id: u32, i: int) -> u8 {
    if i == 28 {
        (pool_id / 0x100_0000) as u8
    } else if i == 29 {
        ((pool_id / 0x1_0000) % 0x100) as u8
    } else if i == 30 {
        ((pool_id / 0x100) % 0x100) as u8
    } else if i == 31 {
        (pool_id % 0x100) as u8
    } else {
        0
    }
}

/// The deployment salt of a pool.
pub fn salt_for_pool(pool_id: u32) -> (salt: [u8; 32])
    ensures
        forall|i: int| 0 <= i < 32 ==> salt@[i] == salt_byte(pool_id, i),
{
    let mut salt = [0u8; 32];
    salt[28] = (pool_id / 0x100_0000) as u8;
    salt[29] = ((pool_id / 0x1_0000) % 0x100) as u8;
    salt[30] = ((pool_id / 0x100) % 0x100) as u8;
    salt[31] = (pool_id % 0x100) as u8;
    salt
}

/// The recorded pools with ids from `start` to `end` inclusive, in id
/// order.
pub open spec fn pools_between(pools: Map<u32, ArenaMetadata>, start: int, end: int) -> Seq<
    ArenaMetadata,
>
    decreases end - start + 1,
{
    if end < start {
        Seq::empty()
    } else {
        let rest = pools_between(pools, start, end - 1);
        if pools.contains_key(end as u32) {
            rest.push(pools[end as u32])
        } else {
            rest
        }
    }
}

/// The page of pools after `offset`, of at most `limit` (and at most 50)
/// pools, in id order.
pub open spec fn arenas_page(s: FactoryStorageView, offset: u32, limit: u32) -> Seq<ArenaMetadata> {
    let lim = if limit < MAX_PAGE_SIZE {
        limit
    } else {
        MAX_PAGE_SIZE
    };
    let end = if s.pool_count < offset + lim {
        s.pool_count as int
    } else {
        offset + lim
    };
    pools_between(s.pools, offset + 1, end)
}

/// Why `create_pool` would refuse a request of `host`, if it would.
pub open spec fn create_rejection(s: FactoryStorageView, host: AccountId, config: PoolConfig) -> Option<
    FactoryError,
> {
    if s.paused {
        Some(FactoryError::ContractPaused)
    } else if s.admin is None {
        Some(FactoryError::NotInitialized)
    } else if !flag(s.whitelisted, host) {
        Some(FactoryError::HostNotWhitelisted)
    } else if config.entry_fee <= 0 {
        Some(FactoryError::InvalidStakeAmount)
    } else if s.min_stake is None {
        Some(FactoryError::NotInitialized)
    } else if config.entry_fee < s.min_stake->0 {
        Some(FactoryError::StakeBelowMinimum)
    } else if active_pools_of(s, host) >= max_active_pools_of(s) {
        Some(FactoryError::MaxActivePoolsReached)
    } else if s.arena_wasm_hash is None {
        Some(FactoryError::WasmHashNotSet)
    } else if s.pool_sequence == u32::MAX {
        Some(FactoryError::PoolLimitReached)
    } else {
        None
    }
}

/// The factory: its stored state and the events it has published.
pub struct FactoryContract {
    pub storage: FactoryStorage,
    pub events: Vec<FactoryEvent>,
}

/// The mathematical view of the factory.
pub struct FactoryView {
    pub storage: FactoryStorageView,
    pub events: Seq<FactoryEvent>,
}

impl View for FactoryContract {
    type V = FactoryView;

    open spec fn view(&self) -> FactoryView {
        FactoryView { storage: self.storage@, events: self.events@ }
    }
}

impl FactoryContract {
    /// A factory with nothing stored.
    pub fn new() -> (f: FactoryContract)
        ensures
            f@.storage.admin is None,
            f@.storage.pool_sequence == 0,
            f@.storage.pool_count == 0,
            !f@.storage.paused,
            f@.events == Seq::<FactoryEvent>::empty(),
    {
        FactoryContract { storage: FactoryStorage::new(), events: Vec::new() }
    }

    /// Record the admin and the minimum entry fee of pools, once; the
    /// minimum must be positive.
    pub fn initialize(&mut self, admin: AccountId, min_stake: i128) -> (r: Result<
        (),
        FactoryError,
    >)
        ensures
            old(self)@.storage.admin is Some ==> r == Err::<(), FactoryError>(
                FactoryError::AlreadyInitialized,
            ) && final(self)@ == old(self)@,
            old(self)@.storage.admin is None && min_stake <= 0 ==> r == Err::<(), FactoryError>(
                FactoryError::InvalidStakeAmount,
            ) && final(self)@ == old(self)@,
            old(self)@.storage.admin is None && min_stake > 0 ==> r is Ok && final(self)@
                == (FactoryView {
                storage: FactoryStorageView {
                    admin: Some(admin),
                    min_stake: Some(min_stake),
                    ..old(self)@.storage
                },
                events: old(self)@.events.push(FactoryEvent::Initialized { admin, min_stake }),
            }),
    {
        if self.storage.has_admin() {
            return Err(FactoryError::AlreadyInitialized);
        }
        if min_stake <= 0 {
            return Err(FactoryError::InvalidStakeAmount);
        }
        self.storage.save_admin(admin);
        self.storage.save_min_stake(min_stake);
        self.events.push(FactoryEvent::Initialized { admin, min_stake });
        Ok(())
    }

    /// The admin, whose authorization the host checks, or `NotInitialized`.
    fn require_admin(&self) -> (r: Result<AccountId, FactoryError>)
        ensures
            r == (match self@.storage.admin {
                Some(a) => Ok::<AccountId, FactoryError>(a),
                None => Err(FactoryError::NotInitialized),
            }),
    {
        self.storage.load_admin()
    }

    /// Set the code hash of the arenas to deploy (admin only).
    pub fn set_arena_wasm_hash(&mut self, wasm_hash: [u8; 32]) -> (r: Result<(), FactoryError>)
        ensures
            old(self)@.storage.admin is None ==> r == Err::<(), FactoryError>(
                FactoryError::NotInitialized,
            ) && final(self)@ == old(self)@,
            old(self)@.storage.admin is Some ==> r is Ok && final(self)@ == (FactoryView {
                storage: FactoryStorageView {
                    arena_wasm_hash: Some(wasm_hash),
                    ..old(self)@.storage
                },
                events: old(self)@.events.push(FactoryEvent::WasmHashUpdated { wasm_hash }),
            }),
    {
        self.require_admin()?;
        self.storage.save_arena_wasm_hash(wasm_hash);
        self.events.push(FactoryEvent::WasmHashUpdated { wasm_hash });
        Ok(())
    }

    /// Allow `host` to create pools (admin only).
    pub fn add_to_whitelist(&mut self, host: AccountId) -> (r: Result<(), FactoryError>)
        ensures
            old(self)@.storage.admin is None ==> r == Err::<(), FactoryError>(
                FactoryError::NotInitialized,
            ) && final(self)@ == old(self)@,
            old(self)@.storage.admin is Some ==> r is Ok && final(self)@ == (FactoryView {
                storage: FactoryStorageView {
                    whitelisted: old(self)@.storage.whitelisted.insert(host, true),
                    ..old(self)@.storage
                },
                events: old(self)@.events.push(FactoryEvent::WhitelistAdded { host }),
            }),
    {
        self.require_admin()?;
        self.storage.set_whitelisted(host, true);
        self.events.push(FactoryEvent::WhitelistAdded { host });
        Ok(())
    }

    /// Stop `host` from creating pools (admin only).
    pub fn remove_from_whitelist(&mut self, host: AccountId) -> (r: Result<(), FactoryError>)
        ensures
            old(self)@.storage.admin is None ==> r == Err::<(), FactoryError>(
                FactoryError::NotInitialized,
            ) && final(self)@ == old(self)@,
            old(self)@.storage.admin is Some ==> r is Ok && final(self)@ == (FactoryView {
                storage: FactoryStorageView {
                    whitelisted: old(self)@.storage.whitelisted.insert(host, false),
                    ..old(self)@.storage
                },
                events: old(self)@.events.push(FactoryEvent::WhitelistRemoved { host }),
            }),
    {
        self.require_admin()?;
        self.storage.set_whitelisted(host, false);
        self.events.push(FactoryEvent::WhitelistRemoved { host });
        Ok(())
    }

    /// Whether `host` may create pools.
    pub fn is_whitelisted(&self, host: AccountId) -> (b: bool)
        ensures
            b == flag(self@.storage.whitelisted, host),
    {
        self.storage.is_whitelisted(host)
    }

    /// Approve a yield vault (admin only).
    pub fn add_approved_vault(&mut self, vault: AccountId) -> (r: Result<(), FactoryError>)
        ensures
            old(self)@.storage.admin is None ==> r == Err::<(), FactoryError>(
                FactoryError::NotInitialized,
            ) && final(self)@ == old(self)@,
            old(self)@.storage.admin is Some ==> r is Ok && final(self)@ == (FactoryView {
                storage: FactoryStorageView {
                    approved_vaults: old(self)@.storage.approved_vaults.insert(vault, true),
                    ..old(self)@.storage
                },
                events: old(self)@.events.push(FactoryEvent::VaultAdded { vault }),
            }),
    {
        self.require_admin()?;
        self.storage.set_approved_vault(vault, true);
        self.events.push(FactoryEvent::VaultAdded { vault });
        Ok(())
    }

    /// Withdraw the approval of a yield vault (admin only).
    pub fn remove_approved_vault(&mut self, vault: AccountId) -> (r: Result<(), FactoryError>)
        ensures
            old(self)@.storage.admin is None ==> r == Err::<(), FactoryError>(
                FactoryError::NotInitialized,
            ) && final(self)@ == old(self)@,
            old(self)@.storage.admin is Some ==> r is Ok && final(self)@ == (FactoryView {
                storage: FactoryStorageView {
                    approved_vaults: old(self)@.storage.approved_vaults.insert(vault, false),
                    ..old(self)@.storage
                },
                events: old(self)@.events.push(FactoryEvent::VaultRemoved { vault }),
            }),
    {
        self.require_admin()?;
        self.storage.set_approved_vault(vault, false);
        self.events.push(FactoryEvent::VaultRemoved { vault });
        Ok(())
    }

    /// Approve an oracle (admin only).
    pub fn add_approved_oracle(&mut self, oracle: AccountId) -> (r: Result<(), FactoryError>)
        ensures
            old(self)@.storage.admin is None ==> r == Err::<(), FactoryError>(
                FactoryError::NotInitialized,
            ) && final(self)@ == old(self)@,
            old(self)@.storage.admin is Some ==> r is Ok && final(self)@ == (FactoryView {
                storage: FactoryStorageView {
                    approved_oracles: old(self)@.storage.approved_oracles.insert(oracle, true),
                    ..old(self)@.storage
                },
                events: old(self)@.events.push(FactoryEvent::OracleAdded { oracle }),
            }),
    {
        self.require_admin()?;
        self.storage.set_approved_oracle(oracle, true);
        self.events.push(FactoryEvent::OracleAdded { oracle });
        Ok(())
    }

    /// Withdraw the approval of an oracle (admin only).
    pub fn remove_approved_oracle(&mut self, oracle: AccountId) -> (r: Result<(), FactoryError>)
        ensures
            old(self)@.storage.admin is None ==> r == Err::<(), FactoryError>(
                FactoryError::NotInitialized,
            ) && final(self)@ == old(self)@,
            old(self)@.storage.admin is Some ==> r is Ok && final(self)@ == (FactoryView {
                storage: FactoryStorageView {
                    approved_oracles: old(self)@.storage.approved_oracles.insert(oracle, false),
                    ..old(self)@.storage
                },
                events: old(self)@.events.push(FactoryEvent::OracleRemoved { oracle }),
            }),
    {
        self.require_admin()?;
        self.storage.set_approved_oracle(oracle, false);
        self.events.push(FactoryEvent::OracleRemoved { oracle });
        Ok(())
    }

    /// The minimum entry fee of pools, or `NotInitialized`.
    pub fn get_min_stake(&self) -> (r: Result<i128, FactoryError>)
        ensures
            r == (match self@.storage.min_stake {
                Some(m) => Ok::<i128, FactoryError>(m),
                None => Err(FactoryError::NotInitialized),
            }),
    {
        self.storage.load_min_stake()
    }

    /// Set the active pool limit per host (admin only).
    pub fn set_max_active_pools(&mut self, max: u32) -> (r: Result<(), FactoryError>)
        ensures
            old(self)@.storage.admin is None ==> r == Err::<(), FactoryError>(
                FactoryError::NotInitialized,
            ) && final(self)@ == old(self)@,
            old(self)@.storage.admin is Some ==> r is Ok && final(self)@ == (FactoryView {
                storage: FactoryStorageView { max_active_pools: Some(max), ..old(self)@.storage },
                events: old(self)@.events.push(FactoryEvent::MaxActivePoolsConfigured { max }),
            }),
    {
        self.require_admin()?;
        self.storage.save_max_active_pools(max);
        self.events.push(FactoryEvent::MaxActivePoolsConfigured { max });
        Ok(())
    }

    /// The active pool limit per host.
    pub fn get_max_active_pools(&self) -> (n: u32)
        ensures
            n == max_active_pools_of(self@.storage),
    {
        self.storage.load_max_active_pools()
    }

    /// Pause pool creation and release (admin only).
    pub fn pause(&mut self) -> (r: Result<(), FactoryError>)
        ensures
            old(self)@.storage.admin is None ==> r == Err::<(), FactoryError>(
                FactoryError::NotInitialized,
            ) && final(self)@ == old(self)@,
            old(self)@.storage.admin is Some ==> r is Ok && final(self)@ == (FactoryView {
                storage: FactoryStorageView { paused: true, ..old(self)@.storage },
                events: old(self)@.events.push(FactoryEvent::Paused),
            }),
    {
        self.require_admin()?;
        self.storage.set_paused(true);
        self.events.push(FactoryEvent::Paused);
        Ok(())
    }

    /// Resume pool creation and release (admin only).
    pub fn unpause(&mut self) -> (r: Result<(), FactoryError>)
        ensures
            old(self)@.storage.admin is None ==> r == Err::<(), FactoryError>(
                FactoryError::NotInitialized,
            ) && final(self)@ == old(self)@,
            old(self)@.storage.admin is Some ==> r is Ok && final(self)@ == (FactoryView {
                storage: FactoryStorageView { paused: false, ..old(self)@.storage },
                events: old(self)@.events.push(FactoryEvent::Unpaused),
            }),
    {
        self.require_admin()?;
        self.storage.set_paused(false);
        self.events.push(FactoryEvent::Unpaused);
        Ok(())
    }

    /// Release an arena from its creator's active pool count, called with
    /// `current_contract`, the address of the contract executing the call.
    /// The arena must have a creator record.
    pub fn release_arena(&mut self, current_contract: AccountId) -> (r: Result<(), FactoryError>)
        ensures
            old(self)@.storage.paused ==> r == Err::<(), FactoryError>(FactoryError::ContractPaused)
                && final(self)@ == old(self)@,
            !old(self)@.storage.paused && !old(self)@.storage.creator_stakes.contains_key(
                current_contract,
            ) ==> r == Err::<(), FactoryError>(FactoryError::ArenaNotFound) && final(self)@
                == old(self)@,
            !old(self)@.storage.paused && old(self)@.storage.creator_stakes.contains_key(
                current_contract,
            ) ==> ({
                let s = old(self)@.storage;
                let creator = s.creator_stakes[current_contract].creator;
                let n = active_pools_of(s, creator);
                &&& r is Ok
                &&& final(self)@ == FactoryView {
                    storage: if n > 0 {
                        FactoryStorageView {
                            active_pool_counts: s.active_pool_counts.insert(creator, (n - 1) as u32),
                            ..s
                        }
                    } else {
                        s
                    },
                    events: old(self)@.events.push(FactoryEvent::PoolReleased { creator }),
                }
            }),
    {
        if self.storage.is_paused() {
            return Err(FactoryError::ContractPaused);
        }
        let record = match self.storage.load_creator_stake(current_contract) {
            Some(r) => r,
            None => return Err(FactoryError::ArenaNotFound),
        };
        self.storage.decrement_active_pool_count(record.creator);
        self.events.push(FactoryEvent::PoolReleased { creator: record.creator });
        Ok(())
    }

    /// Check a pool request of `host` and reserve the next pool id. Returns
    /// what the host has to deploy; `record_pool` then records the arena.
    pub fn create_pool(&mut self, host: AccountId, config: PoolConfig) -> (r: Result<
        PoolDeployment,
        FactoryError,
    >)
        ensures
            create_rejection(old(self)@.storage, host, config) matches Some(e) ==> r == Err::<
                PoolDeployment,
                FactoryError,
            >(e) && final(self)@ == old(self)@,
            create_rejection(old(self)@.storage, host, config) is None ==> ({
                let s = old(self)@.storage;
                let id = (s.pool_sequence + 1) as u32;
                &&& r matches Ok(d) && d.pool_id == id && d.wasm_hash == s.arena_wasm_hash->0
                    && (forall|i: int| 0 <= i < 32 ==> d.salt@[i] == salt_byte(id, i))
                    && d.host == host && d.config == config && d.init == arena_init(host, config)
                &&& final(self)@ == FactoryView {
                    storage: FactoryStorageView { pool_sequence: id, ..s },
                    events: old(self)@.events,
                }
            }),
    {
        if self.storage.is_paused() {
            return Err(FactoryError::ContractPaused);
        }
        self.storage.load_admin()?;
        if !self.storage.is_whitelisted(host) {
            return Err(FactoryError::HostNotWhitelisted);
        }
        if config.entry_fee <= 0 {
            return Err(FactoryError::InvalidStakeAmount);
        }
        let min_stake = self.storage.load_min_stake()?;
        if config.entry_fee < min_stake {
            return Err(FactoryError::StakeBelowMinimum);
        }
        let max_pools = self.storage.load_max_active_pools();
        let active = self.storage.load_active_pool_count(host);
        if active >= max_pools {
            return Err(FactoryError::MaxActivePoolsReached);
        }
        let wasm_hash = self.storage.load_arena_wasm_hash()?;
        let pool_id = self.storage.next_pool_id()?;
        let salt = salt_for_pool(pool_id);
        let init = ArenaInit {
            admin: host,
            stake_token: config.stake_token,
            yield_vault: config.yield_vault,
            entry_fee: config.entry_fee,
            oracle_contract: config.oracle_contract,
        };
        Ok(PoolDeployment { pool_id, salt, wasm_hash, host, config, init })
    }

    /// Record the arena `arena` deployed at time `now` for the pool that
    /// `create_pool` reserved last (`deployment`): its creator record, one
    /// more active pool of the host, its metadata (status `Active`) and one
    /// more pool. Returns the arena.
    pub fn record_pool(&mut self, deployment: &PoolDeployment, arena: AccountId, now: u64) -> (a:
        AccountId)
        requires
            deployment.pool_id == old(self)@.storage.pool_sequence,
            active_pools_of(old(self)@.storage, deployment.host) < u32::MAX,
            old(self)@.storage.pool_count < u32::MAX,
        ensures
            a == arena,
            ({
                let s = old(self)@.storage;
                let host = deployment.host;
                let config = deployment.config;
                let pool_id = deployment.pool_id;
                final(self)@ == FactoryView {
                    storage: FactoryStorageView {
                        creator_stakes: s.creator_stakes.insert(
                            arena,
                            CreatorStakeRecord { creator: host, amount: config.entry_fee },
                        ),
                        active_pool_counts: s.active_pool_counts.insert(
                            host,
                            (active_pools_of(s, host) + 1) as u32,
                        ),
                        pools: s.pools.insert(
                            pool_id,
                            ArenaMetadata {
                                arena_address: arena,
                                pool_id,
                                host,
                                entry_fee: config.entry_fee,
                                status: ArenaStatus::Active,
                                created_at: now,
                            },
                        ),
                        pool_count: (s.pool_count + 1) as u32,
                        ..s
                    },
                    events: old(self)@.events.push(
                        FactoryEvent::PoolCreated {
                            pool_id,
                            host,
                            entry_fee: config.entry_fee,
                            arena,
                        },
                    ),
                }
            }),
    {
        let host = deployment.host;
        let config = deployment.config;
        let pool_id = deployment.pool_id;
        self.storage.save_creator_stake(
            arena,
            &CreatorStakeRecord { creator: host, amount: config.entry_fee },
        );
        self.storage.increment_active_pool_count(host);
        let pool_metadata = ArenaMetadata {
            arena_address: arena,
            pool_id,
            host,
            entry_fee: config.entry_fee,
            status: ArenaStatus::Active,
            created_at: now,
        };
        self.storage.save_pool(pool_id, &pool_metadata);
        self.storage.increment_pool_count();
        self.events.push(
            FactoryEvent::PoolCreated { pool_id, host, entry_fee: config.entry_fee, arena },
        );
        arena
    }

    /// The creator record of an arena.
    pub fn get_creator_stake(&self, arena: AccountId) -> (r: Option<CreatorStakeRecord>)
        ensures
            r == lookup(self@.storage.creator_stakes, arena),
    {
        self.storage.load_creator_stake(arena)
    }

    /// Set the status of pool `pool_id`, called with `caller`, the address
    /// of the contract executing the call, which must be the pool's arena.
    pub fn update_arena_status(&mut self, pool_id: u32, status: ArenaStatus, caller: AccountId) -> (r:
        Result<(), FactoryError>)
        ensures
            !old(self)@.storage.pools.contains_key(pool_id) ==> r == Err::<(), FactoryError>(
                FactoryError::PoolNotFound,
            ) && final(self)@ == old(self)@,
            old(self)@.storage.pools.contains_key(pool_id) && old(self)@.storage.pools[pool_id].arena_address
                != caller ==> r == Err::<(), FactoryError>(FactoryError::Unauthorized) && final(self)@ == old(self)@,
            old(self)@.storage.pools.contains_key(pool_id) && old(self)@.storage.pools[pool_id].arena_address
                == caller ==> r is Ok && final(self)@ == (FactoryView {
                storage: FactoryStorageView {
                    pools: old(self)@.storage.pools.insert(
                        pool_id,
                        ArenaMetadata { status, ..old(self)@.storage.pools[pool_id] },
                    ),
                    ..old(self)@.storage
                },
                events: old(self)@.events.push(FactoryEvent::PoolStatusUpdated { pool_id, status }),
            }),
    {
        let meta = match self.storage.load_pool(pool_id) {
            Some(m) => m,
            None => return Err(FactoryError::PoolNotFound),
        };
        if meta.arena_address != caller {
            return Err(FactoryError::Unauthorized);
        }
        self.storage.update_pool_status(pool_id, status);
        self.events.push(FactoryEvent::PoolStatusUpdated { pool_id, status });
        Ok(())
    }

    /// The metadata of pool `pool_id`.
    pub fn get_arena(&self, pool_id: u32) -> (r: Option<ArenaMetadata>)
        ensures
            r == lookup(self@.storage.pools, pool_id),
    {
        self.storage.load_pool(pool_id)
    }

    /// The pools after the first `offset` ones, at most `limit` and at most
    /// 50 of them, in id order.
    pub fn get_arenas(&self, offset: u32, limit: u32) -> (r: Vec<ArenaMetadata>)
        requires
            offset < u32::MAX,
            offset + (if limit < MAX_PAGE_SIZE {
                limit
            } else {
                MAX_PAGE_SIZE
            }) <= u32::MAX,
        ensures
            r@ == arenas_page(self@.storage, offset, limit),
    {
        let total = self.storage.pool_count();
        let limit = if limit < MAX_PAGE_SIZE {
            limit
        } else {
            MAX_PAGE_SIZE
        };
        let mut result: Vec<ArenaMetadata> = Vec::new();
        let start = offset + 1;
        let end = if total < offset + limit {
            total
        } else {
            offset + limit
        };
        if start <= end {
            let mut id: u64 = start as u64;
            while id <= end as u64
                invariant
                    start <= id <= end + 1,
                    end <= u32::MAX,
                    result@ == pools_between(self@.storage.pools, start as int, id - 1),
                decreases end + 1 - id,
            {
                if let Some(meta) = self.storage.load_pool(id as u32) {
                    result.push(meta);
                }
                id += 1;
            }
        }
        assert(result@ == arenas_page(self@.storage, offset, limit));
        result
    }
}

/// A page holds at most `limit` pools and never more than 50.
pub proof fn law_page_is_bounded(s: FactoryStorageView, offset: u32, limit: u32)
    ensures
        arenas_page(s, offset, limit).len() <= limit,
        arenas_page(s, offset, limit).len() <= MAX_PAGE_SIZE,
{
    let lim = if limit < MAX_PAGE_SIZE {
        limit
    } else {
        MAX_PAGE_SIZE
    };
    let end = if s.pool_count < offset + lim {
        s.pool_count as int
    } else {
        offset + lim
    };
    lemma_pools_between_len(s.pools, offset + 1, end);
}

/// The pools between two ids are at most as many as the ids.
pub proof fn lemma_pools_between_len(pools: Map<u32, ArenaMetadata>, start: int, end: int)
    ensures
        pools_between(pools, start, end).len() <= (if end < start {
            0
        } else {
            end - start + 1
        }),
    decreases end - start + 1,
{
    if end >= start {
        lemma_pools_between_len(pools, start, end - 1);
    }
}

/// Pool ids are never reused: each accepted request gets the id after the
/// previous one, so a second accepted request gets a larger id than the
/// first.
pub proof fn law_pool_ids_increase(
    s: FactoryStorageView,
    host1: AccountId,
    config1: PoolConfig,
    host2: AccountId,
    config2: PoolConfig,
)
    requires
        create_rejection(s, host1, config1) is None,
        create_rejection(
            FactoryStorageView { pool_sequence: (s.pool_sequence + 1) as u32, ..s },
            host2,
            config2,
        ) is None,
    ensures
        ({
            let first = (s.pool_sequence + 1) as u32;
            let second = (first + 1) as u32;
            first < second
        }),
{
}

/// A host at its active pool limit cannot create another pool, and the
/// factory refuses every pool request while paused.
pub proof fn law_pool_limits_are_enforced(s: FactoryStorageView, host: AccountId, config: PoolConfig)
    ensures
        s.paused ==> create_rejection(s, host, config) == Some(FactoryError::ContractPaused),
        create_rejection(s, host, config) is None ==> active_pools_of(s, host)
            < max_active_pools_of(s) && flag(s.whitelisted, host) && config.entry_fee
            >= s.min_stake->0 && config.entry_fee > 0,
{
}

} // verus!
