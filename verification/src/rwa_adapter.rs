//! The RWA adapter: records deposits made on behalf of an arena and pays
//! them back with a fixed simulated yield of 5%.

use vstd::prelude::*;

use std::collections::HashMap;

use crate::num::div_toward_zero;
use crate::{AccountId, TokenTransfer};

verus! {

broadcast use vstd::std_specs::hash::group_hash_axioms;

/// The simulated yield, in basis points of the principal (5%).
pub const YIELD_BPS: i128 = 500;

/// Adapter configuration.
#[derive(Clone, Copy, PartialEq, Eq, Structural, Debug)]
pub struct RwaConfig {
    pub admin: AccountId,
    pub stake_token: AccountId,
    pub total_deposited: i128,
}

/// A depositor's position.
#[derive(Clone, Copy, PartialEq, Eq, Structural, Debug)]
pub struct YieldAccrual {
    pub principal: i128,
    pub withdrawn: bool,
}

/// Errors returned by adapter entry points.
#[derive(Clone, Copy, PartialEq, Eq, Structural, Debug)]
pub enum RwaError {
    NotInitialized,
    AlreadyInitialized,
    NoDeposit,
    Unauthorized,
    AlreadyWithdrawn,
    InsufficientBalance,
    ArithmeticOverflow,
    InvalidAmount,
}

/// An event published by the adapter.
#[derive(Clone, Copy, PartialEq, Eq, Structural, Debug)]
pub enum RwaEvent {
    Initialized,
    Deposited { from: AccountId, amount: i128 },
    /// `payable` paid out, of which `yield_paid` above the principal.
    Withdrawn { from: AccountId, payable: i128, yield_paid: i128 },
}

/// The stored state of the adapter.
pub struct RwaStorage {
    pub initialized: bool,
    pub config: Option<RwaConfig>,
    pub positions: HashMap<AccountId, YieldAccrual>,
}

/// The mathematical view of the adapter's stored state.
pub struct RwaStorageView {
    pub initialized: bool,
    pub config: Option<RwaConfig>,
    pub positions: Map<AccountId, YieldAccrual>,
}

impl View for RwaStorage {
    type V = RwaStorageView;

    open spec fn view(&self) -> RwaStorageView {
        RwaStorageView {
            initialized: self.initialized,
            config: self.config,
            positions: self.positions@,
        }
    }
}

/// A depositor's position in a stored state; the empty one if none.
pub open spec fn position_in(s: RwaStorageView, user: AccountId) -> YieldAccrual {
    if s.positions.contains_key(user) {
        s.positions[user]
    } else {
        YieldAccrual { principal: 0, withdrawn: false }
    }
}

impl RwaStorage {
    /// Nothing stored.
    pub fn new() -> (s: RwaStorage)
        ensures
            s@ == (RwaStorageView { initialized: false, config: None, positions: Map::empty() }),
    {
        RwaStorage { initialized: false, config: None, positions: HashMap::new() }
    }

    /// `Ok` once the adapter is marked initialized, else `NotInitialized`.
    pub fn assert_initialized(&self) -> (r: Result<(), RwaError>)
        ensures
            r == (if self@.initialized {
                Ok::<(), RwaError>(())
            } else {
                Err(RwaError::NotInitialized)
            }),
    {
        if self.initialized {
            Ok(())
        } else {
            Err(RwaError::NotInitialized)
        }
    }

    pub fn set_initialized(&mut self)
        ensures
            final(self)@ == (RwaStorageView { initialized: true, ..old(self)@ }),
    {
        self.initialized = true;
    }

    /// The configuration, or `NotInitialized`.
    pub fn load_config(&self) -> (r: Result<RwaConfig, RwaError>)
        ensures
            r == (match self@.config {
                Some(c) => Ok::<RwaConfig, RwaError>(c),
                None => Err(RwaError::NotInitialized),
            }),
    {
        match self.config {
            Some(c) => Ok(c),
            None => Err(RwaError::NotInitialized),
        }
    }

    pub fn save_config(&mut self, config: &RwaConfig)
        ensures
            final(self)@ == (RwaStorageView { config: Some(*config), ..old(self)@ }),
    {
        self.config = Some(*config);
    }

    /// A depositor's position; empty if none.
    pub fn load_position(&self, user: AccountId) -> (p: YieldAccrual)
        ensures
            p == position_in(self@, user),
    {
        match self.positions.get(&user) {
            Some(p) => *p,
            None => YieldAccrual { principal: 0, withdrawn: false },
        }
    }

    pub fn save_position(&mut self, user: AccountId, pos: &YieldAccrual)
        ensures
            final(self)@ == (RwaStorageView {
                positions: old(self)@.positions.insert(user, *pos),
                ..old(self)@
            }),
    {
        self.positions.insert(user, *pos);
    }
}

/// The simulated yield on a principal: 5%, rounded toward zero.
pub open spec fn yield_on(principal: i128) -> int {
    div_toward_zero(principal * YIELD_BPS, 10000)
}

/// What a principal is worth with its yield, when that fits in `i128`.
pub open spec fn value_with_yield(principal: i128) -> Option<i128> {
    if principal * YIELD_BPS < i128::MIN || principal * YIELD_BPS > i128::MAX {
        None
    } else if principal + yield_on(principal) < i128::MIN || principal + yield_on(principal)
        > i128::MAX {
        None
    } else {
        Some((principal + yield_on(principal)) as i128)
    }
}

/// The principal plus yield, computed with checked arithmetic.
fn checked_value_with_yield(principal: i128) -> (r: Option<i128>)
    ensures
        r == value_with_yield(principal),
{
    match principal.checked_mul(YIELD_BPS) {
        Some(v) => principal.checked_add(v / 10000),
        None => None,
    }
}

/// The adapter: its stored state, the events it has published and the
/// token movements it has requested.
pub struct RwaAdapter {
    pub storage: RwaStorage,
    pub events: Vec<RwaEvent>,
    pub transfers: Vec<TokenTransfer>,
}

/// The mathematical view of the adapter.
pub struct RwaAdapterView {
    pub storage: RwaStorageView,
    pub events: Seq<RwaEvent>,
    pub transfers: Seq<TokenTransfer>,
}

impl View for RwaAdapter {
    type V = RwaAdapterView;

    open spec fn view(&self) -> RwaAdapterView {
        RwaAdapterView { storage: self.storage@, events: self.events@, transfers: self.transfers@ }
    }
}

/// Why `withdraw_all` would refuse `user`, if it would.
pub open spec fn withdraw_rejection(s: RwaStorageView, user: AccountId) -> Option<RwaError> {
    let pos = position_in(s, user);
    if s.config is None {
        Some(RwaError::NotInitialized)
    } else if pos.principal == 0 {
        Some(RwaError::NoDeposit)
    } else if pos.withdrawn {
        Some(RwaError::AlreadyWithdrawn)
    } else if value_with_yield(pos.principal) is None {
        Some(RwaError::ArithmeticOverflow)
    } else {
        None
    }
}

/// What a withdrawal pays out: the principal with its yield, capped at the
/// contract's balance.
pub open spec fn payable(total: i128, balance: i128) -> i128 {
    if total > balance {
        balance
    } else {
        total
    }
}

/// What `balance_of` reports for a user.
pub open spec fn reported_balance(s: RwaStorageView, user: AccountId) -> i128 {
    if s.config is None || position_in(s, user).withdrawn {
        0
    } else {
        match value_with_yield(position_in(s, user).principal) {
            Some(v) => v,
            None => 0,
        }
    }
}

impl RwaAdapter {
    /// An adapter with nothing stored.
    pub fn new() -> (a: RwaAdapter)
        ensures
            a@ == (RwaAdapterView {
                storage: RwaStorageView {
                    initialized: false,
                    config: None,
                    positions: Map::empty(),
                },
                events: Seq::empty(),
                transfers: Seq::empty(),
            }),
    {
        RwaAdapter { storage: RwaStorage::new(), events: Vec::new(), transfers: Vec::new() }
    }

    /// Record the admin and the staked token, with nothing deposited;
    /// refused once initialized.
    pub fn initialize(&mut self, admin: AccountId, stake_token: AccountId) -> (r: Result<
        (),
        RwaError,
    >)
        ensures
            old(self)@.storage.initialized ==> r == Err::<(), RwaError>(
                RwaError::AlreadyInitialized,
            ) && final(self)@ == old(self)@,
            !old(self)@.storage.initialized ==> r is Ok && final(self)@ == (RwaAdapterView {
                storage: RwaStorageView {
                    initialized: true,
                    config: Some(RwaConfig { admin, stake_token, total_deposited: 0 }),
                    ..old(self)@.storage
                },
                events: old(self)@.events.push(RwaEvent::Initialized),
                transfers: old(self)@.transfers,
            }),
    {
        if self.storage.assert_initialized().is_ok() {
            return Err(RwaError::AlreadyInitialized);
        }
        let config = RwaConfig { admin, stake_token, total_deposited: 0 };
        self.storage.save_config(&config);
        self.storage.set_initialized();
        self.events.push(RwaEvent::Initialized);
        Ok(())
    }

    /// Record a deposit of `amount` for `from`: its principal and the
    /// total deposited both grow by `amount`.
    pub fn deposit(&mut self, from: AccountId, amount: i128) -> (r: Result<(), RwaError>)
        requires
            amount > 0 && old(self)@.storage.config is Some ==> position_in(
                old(self)@.storage,
                from,
            ).principal + amount <= i128::MAX && old(self)@.storage.config->0.total_deposited
                + amount <= i128::MAX,
        ensures
            amount <= 0 ==> r == Err::<(), RwaError>(RwaError::InvalidAmount) && final(self)@
                == old(self)@,
            amount > 0 && old(self)@.storage.config is None ==> r == Err::<(), RwaError>(
                RwaError::NotInitialized,
            ) && final(self)@ == old(self)@,
            amount > 0 && old(self)@.storage.config is Some ==> r is Ok && ({
                let s = old(self)@.storage;
                let c = s.config->0;
                let pos = position_in(s, from);
                final(self)@ == RwaAdapterView {
                    storage: RwaStorageView {
                        positions: s.positions.insert(
                            from,
                            YieldAccrual { principal: (pos.principal + amount) as i128, ..pos },
                        ),
                        config: Some(
                            RwaConfig {
                                total_deposited: (c.total_deposited + amount) as i128,
                                ..c
                            },
                        ),
                        ..s
                    },
                    events: old(self)@.events.push(RwaEvent::Deposited { from, amount }),
                    transfers: old(self)@.transfers,
                }
            }),
    {
        if amount <= 0 {
            return Err(RwaError::InvalidAmount);
        }
        let config = self.storage.load_config()?;
        let mut pos = self.storage.load_position(from);
        pos.principal = pos.principal + amount;
        self.storage.save_position(from, &pos);
        let mut cfg = config;
        cfg.total_deposited = cfg.total_deposited + amount;
        self.storage.save_config(&cfg);
        self.events.push(RwaEvent::Deposited { from, amount });
        Ok(())
    }

    /// Close the position of `from`: mark it withdrawn and pay out the
    /// principal with its 5% yield, capped at `contract_balance`, the
    /// adapter's token balance. Returns the amount paid.
    pub fn withdraw_all(&mut self, from: AccountId, contract_balance: i128) -> (r: Result<
        i128,
        RwaError,
    >)
        requires
            withdraw_rejection(old(self)@.storage, from) is None ==> ({
                let pos = position_in(old(self)@.storage, from);
                let paid = payable(value_with_yield(pos.principal)->0, contract_balance);
                i128::MIN <= paid - pos.principal <= i128::MAX
            }),
        ensures
            withdraw_rejection(old(self)@.storage, from) matches Some(e) ==> r == Err::<
                i128,
                RwaError,
            >(e) && final(self)@ == old(self)@,
            withdraw_rejection(old(self)@.storage, from) is None ==> ({
                let s = old(self)@.storage;
                let pos = position_in(s, from);
                let paid = payable(value_with_yield(pos.principal)->0, contract_balance);
                &&& r == Ok::<i128, RwaError>(paid)
                &&& final(self)@ == RwaAdapterView {
                    storage: RwaStorageView {
                        positions: s.positions.insert(from, YieldAccrual { withdrawn: true, ..pos }),
                        ..s
                    },
                    events: old(self)@.events.push(
                        RwaEvent::Withdrawn {
                            from,
                            payable: paid,
                            yield_paid: (paid - pos.principal) as i128,
                        },
                    ),
                    transfers: old(self)@.transfers.push(TokenTransfer::Out { to: from, amount: paid }),
                }
            }),
    {
        let _config = self.storage.load_config()?;
        let pos = self.storage.load_position(from);
        if pos.principal == 0 {
            return Err(RwaError::NoDeposit);
        }
        if pos.withdrawn {
            return Err(RwaError::AlreadyWithdrawn);
        }
        let total = match checked_value_with_yield(pos.principal) {
            Some(t) => t,
            None => return Err(RwaError::ArithmeticOverflow),
        };
        let updated = YieldAccrual { withdrawn: true, ..pos };
        self.storage.save_position(from, &updated);
        let paid = if total > contract_balance {
            contract_balance
        } else {
            total
        };
        self.transfers.push(TokenTransfer::Out { to: from, amount: paid });
        self.events.push(
            RwaEvent::Withdrawn { from, payable: paid, yield_paid: paid - pos.principal },
        );
        Ok(paid)
    }

    /// What `user` would be paid: the principal with its 5% yield, or zero
    /// before initialization, after withdrawal, or when it overflows.
    pub fn balance_of(&self, user: AccountId) -> (b: i128)
        ensures
            b == reported_balance(self@.storage, user),
    {
        match self.storage.load_config() {
            Ok(_) => {
                let pos = self.storage.load_position(user);
                if pos.withdrawn {
                    0
                } else {
                    match checked_value_with_yield(pos.principal) {
                        Some(v) => v,
                        None => 0,
                    }
                }
            },
            Err(_) => 0,
        }
    }

    /// The total ever deposited; zero before initialization.
    pub fn get_total_deposited(&self) -> (t: i128)
        ensures
            t == (match self@.storage.config {
                Some(c) => c.total_deposited,
                None => 0,
            }),
    {
        match self.storage.load_config() {
            Ok(c) => c.total_deposited,
            Err(_) => 0,
        }
    }

    /// Check that an upgrade may proceed: the adapter must be initialized.
    /// Returns the admin, whose authorization the host requires before it
    /// installs the new code.
    pub fn upgrade(&self) -> (r: Result<AccountId, RwaError>)
        ensures
            r == (match self@.storage.config {
                Some(c) => Ok::<AccountId, RwaError>(c.admin),
                None => Err(RwaError::NotInitialized),
            }),
    {
        let config = self.storage.load_config()?;
        Ok(config.admin)
    }
}

/// A position pays out at most once: after a successful withdrawal, the
/// next withdrawal of the same user is refused with `AlreadyWithdrawn`, and
/// the user's reported balance is zero.
pub proof fn law_withdrawal_happens_once(s: RwaStorageView, user: AccountId)
    requires
        withdraw_rejection(s, user) is None,
    ensures
        ({
            let after = RwaStorageView {
                positions: s.positions.insert(
                    user,
                    YieldAccrual { withdrawn: true, ..position_in(s, user) },
                ),
                ..s
            };
            &&& withdraw_rejection(after, user) == Some(RwaError::AlreadyWithdrawn)
            &&& reported_balance(after, user) == 0
        }),
{
}

/// Principal is paid out at most once, and only when there is some: on an
/// initialized adapter, a user without a deposit is refused with
/// `NoDeposit` (also after a withdrawal, since the principal is kept), a
/// withdrawn position is refused with `AlreadyWithdrawn`, and a refused
/// withdrawal (see `withdraw_all`) moves no token and changes no position.
pub proof fn law_principal_is_paid_at_most_once(s: RwaStorageView, user: AccountId)
    requires
        s.config is Some,
    ensures
        position_in(s, user).principal == 0 ==> withdraw_rejection(s, user) == Some(
            RwaError::NoDeposit,
        ),
        position_in(s, user).principal != 0 && position_in(s, user).withdrawn ==> withdraw_rejection(
            s,
            user,
        ) == Some(RwaError::AlreadyWithdrawn),
        withdraw_rejection(s, user) is None ==> !position_in(s, user).withdrawn
            && position_in(s, user).principal != 0,
{
}

/// A funded withdrawal pays exactly the balance reported beforehand; an
/// underfunded one pays the whole contract balance, which is less.
pub proof fn law_withdrawal_pays_reported_balance(
    s: RwaStorageView,
    user: AccountId,
    contract_balance: i128,
)
    requires
        withdraw_rejection(s, user) is None,
    ensures
        contract_balance >= reported_balance(s, user) ==> payable(
            value_with_yield(position_in(s, user).principal)->0,
            contract_balance,
        ) == reported_balance(s, user),
        contract_balance < reported_balance(s, user) ==> payable(
            value_with_yield(position_in(s, user).principal)->0,
            contract_balance,
        ) == contract_balance,
{
}

/// The yield is 5% of a non-negative principal, rounded down: a principal
/// of 1000 is worth 1050.
pub proof fn law_yield_is_five_percent(principal: i128)
    requires
        0 <= principal <= 1_000_000_000_000_000_000_000_000_000_000_000,
    ensures
        value_with_yield(principal) == Some((principal + principal * 500 / 10000) as i128),
        value_with_yield(1000) == Some(1050i128),
{
}

} // verus!
