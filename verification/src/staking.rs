//! The staking pool: stakers deposit tokens for shares and redeem shares
//! for a proportional part of the pool.

use vstd::prelude::*;

use std::collections::HashMap;

use crate::{AccountId, TokenTransfer};

verus! {

broadcast use vstd::std_specs::hash::group_hash_axioms;

/// A staker's position.
#[derive(Clone, Copy, PartialEq, Eq, Structural, Debug)]
pub struct StakePosition {
    pub amount: i128,
    pub shares: i128,
}

/// A staker's position with its share of the pool in basis points.
#[derive(Clone, Copy, PartialEq, Eq, Structural, Debug)]
pub struct StakerStats {
    pub amount: i128,
    pub shares: i128,
    pub stake_share_bps: i128,
}

/// Errors returned by staking entry points.
#[derive(Clone, Copy, PartialEq, Eq, Structural, Debug)]
pub enum StakingError {
    NotInitialized,
    AlreadyInitialized,
    Paused,
    InvalidAmount,
    InsufficientShares,
    ZeroShares,
}

/// An event published by the staking pool.
#[derive(Clone, Copy, PartialEq, Eq, Structural, Debug)]
pub enum StakingEvent {
    Paused,
    Unpaused,
    Staked { staker: AccountId, amount: i128, shares: i128 },
    Unstaked { staker: AccountId, tokens: i128, shares: i128 },
}

/// The number the pool answers to `hello`.
pub const HELLO: u32 = 101112;

/// The sum of the shares of every position of a finite position map.
pub open spec fn sum_shares(m: Map<AccountId, StakePosition>) -> int
    decreases m.dom().len(),
    when m.dom().finite()
{
    if m.dom().len() == 0 {
        0
    } else {
        let k = m.dom().choose();
        m[k].shares + sum_shares(m.remove(k))
    }
}

/// The sum of a position map is that of any one position plus the rest.
pub proof fn lemma_sum_shares_remove(m: Map<AccountId, StakePosition>, k: AccountId)
    requires
        m.dom().finite(),
        m.dom().contains(k),
    ensures
        sum_shares(m) == m[k].shares + sum_shares(m.remove(k)),
    decreases m.dom().len(),
{
    let c = m.dom().choose();
    if c != k {
        assert(m.remove(c).dom() =~= m.dom().remove(c));
        assert(m.remove(k).dom() =~= m.dom().remove(k));
        lemma_sum_shares_remove(m.remove(c), k);
        lemma_sum_shares_remove(m.remove(k), c);
        assert(m.remove(c).remove(k) =~= m.remove(k).remove(c));
    }
}

/// Replacing one position changes the sum by the difference of shares.
pub proof fn lemma_sum_shares_insert(m: Map<AccountId, StakePosition>, k: AccountId, v: StakePosition)
    requires
        m.dom().finite(),
    ensures
        sum_shares(m.insert(k, v)) == v.shares + sum_shares(m.remove(k)),
        m.dom().contains(k) ==> sum_shares(m) == m[k].shares + sum_shares(m.remove(k)),
        !m.dom().contains(k) ==> m.remove(k) == m,
{
    lemma_sum_shares_remove(m.insert(k, v), k);
    assert(m.insert(k, v).remove(k) =~= m.remove(k));
    if m.dom().contains(k) {
        lemma_sum_shares_remove(m, k);
    } else {
        assert(m.remove(k) =~= m);
    }
}

/// With no negative shares, the sum is at least any one position's shares
/// and at least zero.
pub proof fn lemma_sum_shares_bounds(m: Map<AccountId, StakePosition>, k: AccountId)
    requires
        m.dom().finite(),
        forall|p: AccountId| #[trigger] m.dom().contains(p) ==> m[p].shares >= 0,
    ensures
        sum_shares(m) >= 0,
        m.dom().contains(k) ==> m[k].shares <= sum_shares(m),
    decreases m.dom().len(),
{
    if m.dom().len() > 0 {
        let c = m.dom().choose();
        assert(m.remove(c).dom() =~= m.dom().remove(c));
        lemma_sum_shares_bounds(m.remove(c), k);
        if m.dom().contains(k) && k != c {
            assert(m.remove(c).dom().contains(k));
        }
    }
}

/// The shares minted for staking `amount` into a pool holding
/// `total_staked` tokens for `total_shares` shares: one to one into an
/// empty pool, proportional otherwise (rounded down).
pub open spec fn minted_shares(total_staked: i128, total_shares: i128, amount: i128) -> int {
    if total_staked == 0 || total_shares == 0 {
        amount as int
    } else {
        amount * total_shares / (total_staked as int)
    }
}

/// The tokens returned for redeeming `shares` from a pool holding
/// `total_staked` tokens for `total_shares` shares (rounded down).
pub open spec fn redeemed_tokens(total_staked: i128, total_shares: i128, shares: i128) -> int {
    shares * total_staked / (total_shares as int)
}

/// The staking pool: its stored state, the events it has published and the
/// token movements it has requested.
pub struct StakingContract {
    pub admin: Option<AccountId>,
    pub token: Option<AccountId>,
    pub paused: bool,
    pub total_staked: i128,
    pub total_shares: i128,
    pub positions: HashMap<AccountId, StakePosition>,
    pub events: Vec<StakingEvent>,
    pub transfers: Vec<TokenTransfer>,
}

/// The mathematical view of the staking pool.
pub struct StakingView {
    pub admin: Option<AccountId>,
    pub token: Option<AccountId>,
    pub paused: bool,
    pub total_staked: i128,
    pub total_shares: i128,
    pub positions: Map<AccountId, StakePosition>,
    pub events: Seq<StakingEvent>,
    pub transfers: Seq<TokenTransfer>,
}

impl View for StakingContract {
    type V = StakingView;

    open spec fn view(&self) -> StakingView {
        StakingView {
            admin: self.admin,
            token: self.token,
            paused: self.paused,
            total_staked: self.total_staked,
            total_shares: self.total_shares,
            positions: self.positions@,
            events: self.events@,
            transfers: self.transfers@,
        }
    }
}

/// A staker's position in a pool state; the empty position if none.
pub open spec fn position_of(s: StakingView, staker: AccountId) -> StakePosition {
    if s.positions.contains_key(staker) {
        s.positions[staker]
    } else {
        StakePosition { amount: 0, shares: 0 }
    }
}

/// Why `stake` would refuse `amount`, if it would.
pub open spec fn stake_rejection(s: StakingView, amount: i128) -> Option<StakingError> {
    if s.paused {
        Some(StakingError::Paused)
    } else if s.admin is None {
        Some(StakingError::NotInitialized)
    } else if amount <= 0 {
        Some(StakingError::InvalidAmount)
    } else {
        None
    }
}

/// Why `unstake` would refuse to redeem `shares` of `staker`, if it would.
pub open spec fn unstake_rejection(s: StakingView, staker: AccountId, shares: i128) -> Option<
    StakingError,
> {
    if s.paused {
        Some(StakingError::Paused)
    } else if s.admin is None {
        Some(StakingError::NotInitialized)
    } else if shares <= 0 {
        Some(StakingError::InvalidAmount)
    } else if position_of(s, staker).shares < shares {
        Some(StakingError::InsufficientShares)
    } else {
        None
    }
}

impl StakingView {
    /// The pool's ledger is consistent: the staked total equals the share
    /// total, which is the sum of the shares of all positions; every
    /// position holds as many tokens as shares, none negative; and nothing
    /// is staked before initialization.
    pub open spec fn wf(self) -> bool {
        &&& self.positions.dom().finite()
        &&& self.total_staked == self.total_shares
        &&& self.total_shares == sum_shares(self.positions)
        &&& forall|p: AccountId| #[trigger]
            self.positions.contains_key(p) ==> self.positions[p].amount == self.positions[p].shares
                && self.positions[p].shares >= 0
        &&& self.admin is None ==> self.positions.dom().is_empty()
    }
}

impl StakingContract {
    /// A pool that has not been initialized yet.
    pub fn new() -> (c: StakingContract)
        ensures
            c@ == (StakingView {
                admin: None,
                token: None,
                paused: false,
                total_staked: 0,
                total_shares: 0,
                positions: Map::empty(),
                events: Seq::empty(),
                transfers: Seq::empty(),
            }),
            c@.wf(),
    {
        let c = StakingContract {
            admin: None,
            token: None,
            paused: false,
            total_staked: 0,
            total_shares: 0,
            positions: HashMap::new(),
            events: Vec::new(),
            transfers: Vec::new(),
        };
        assert(c@.positions.dom().len() == 0);
        c
    }

    /// A fixed greeting number.
    pub fn hello() -> (r: u32)
        ensures
            r == HELLO,
    {
        HELLO
    }

    /// Record the admin and the staked token; the pool starts empty and
    /// unpaused. Refused once initialized.
    pub fn initialize(&mut self, admin: AccountId, token: AccountId) -> (r: Result<
        (),
        StakingError,
    >)
        requires
            old(self)@.wf(),
        ensures
            final(self)@.wf(),
            old(self)@.admin is Some ==> r == Err::<(), StakingError>(
                StakingError::AlreadyInitialized,
            ) && final(self)@ == old(self)@,
            old(self)@.admin is None ==> r is Ok && final(self)@ == (StakingView {
                admin: Some(admin),
                token: Some(token),
                total_staked: 0,
                total_shares: 0,
                paused: false,
                ..old(self)@
            }),
    {
        if self.admin.is_some() {
            return Err(StakingError::AlreadyInitialized);
        }
        proof {
            assert(self@.positions.dom().len() == 0);
        }
        self.admin = Some(admin);
        self.token = Some(token);
        self.total_staked = 0;
        self.total_shares = 0;
        self.paused = false;
        Ok(())
    }

    /// The admin.
    pub fn admin(&self) -> (a: AccountId)
        requires
            self@.admin is Some,
        ensures
            a == self@.admin->0,
    {
        self.admin.unwrap()
    }

    /// The staked token.
    pub fn token(&self) -> (t: AccountId)
        requires
            self@.token is Some,
        ensures
            t == self@.token->0,
    {
        self.token.unwrap()
    }

    /// The admin, whose authorization the host checks, or `NotInitialized`.
    fn require_admin(&self) -> (r: Result<AccountId, StakingError>)
        ensures
            r == (match self@.admin {
                Some(a) => Ok::<AccountId, StakingError>(a),
                None => Err(StakingError::NotInitialized),
            }),
    {
        match self.admin {
            Some(a) => Ok(a),
            None => Err(StakingError::NotInitialized),
        }
    }

    /// `Paused` while the pool is paused.
    fn require_not_paused(&self) -> (r: Result<(), StakingError>)
        ensures
            r == (if self@.paused {
                Err(StakingError::Paused)
            } else {
                Ok::<(), StakingError>(())
            }),
    {
        if self.paused {
            return Err(StakingError::Paused);
        }
        Ok(())
    }

    /// `NotInitialized` before initialization.
    fn require_initialized(&self) -> (r: Result<(), StakingError>)
        ensures
            r == (if self@.admin is None {
                Err(StakingError::NotInitialized)
            } else {
                Ok::<(), StakingError>(())
            }),
    {
        if self.admin.is_none() {
            return Err(StakingError::NotInitialized);
        }
        Ok(())
    }

    /// Pause staking and unstaking (admin only).
    pub fn pause(&mut self) -> (r: Result<(), StakingError>)
        requires
            old(self)@.wf(),
        ensures
            final(self)@.wf(),
            old(self)@.admin is None ==> r == Err::<(), StakingError>(StakingError::NotInitialized)
                && final(self)@ == old(self)@,
            old(self)@.admin is Some ==> r is Ok && final(self)@ == (StakingView {
                paused: true,
                events: old(self)@.events.push(StakingEvent::Paused),
                ..old(self)@
            }),
    {
        self.require_admin()?;
        self.paused = true;
        self.events.push(StakingEvent::Paused);
        Ok(())
    }

    /// Resume staking and unstaking (admin only).
    pub fn unpause(&mut self) -> (r: Result<(), StakingError>)
        requires
            old(self)@.wf(),
        ensures
            final(self)@.wf(),
            old(self)@.admin is None ==> r == Err::<(), StakingError>(StakingError::NotInitialized)
                && final(self)@ == old(self)@,
            old(self)@.admin is Some ==> r is Ok && final(self)@ == (StakingView {
                paused: false,
                events: old(self)@.events.push(StakingEvent::Unpaused),
                ..old(self)@
            }),
    {
        self.require_admin()?;
        self.paused = false;
        self.events.push(StakingEvent::Unpaused);
        Ok(())
    }

    pub fn is_paused(&self) -> (b: bool)
        ensures
            b == self@.paused,
    {
        self.paused
    }

    pub fn total_staked(&self) -> (t: i128)
        ensures
            t == self@.total_staked,
    {
        self.total_staked
    }

    pub fn total_shares(&self) -> (t: i128)
        ensures
            t == self@.total_shares,
    {
        self.total_shares
    }

    /// A staker's position; zero for a staker who never staked.
    pub fn get_position(&self, staker: AccountId) -> (p: StakePosition)
        ensures
            p == position_of(self@, staker),
    {
        match self.positions.get(&staker) {
            Some(p) => *p,
            None => StakePosition { amount: 0, shares: 0 },
        }
    }

    /// The tokens a staker has staked.
    pub fn staked_balance(&self, staker: AccountId) -> (a: i128)
        ensures
            a == position_of(self@, staker).amount,
    {
        self.get_position(staker).amount
    }

    /// A staker's position and its part of the staked total in basis
    /// points (rounded down; zero while nothing is staked).
    pub fn get_staker_stats(&self, staker: AccountId) -> (st: StakerStats)
        requires
            self@.wf(),
            self@.total_staked > 0 ==> position_of(self@, staker).amount * 10_000 <= i128::MAX,
        ensures
            st == (StakerStats {
                amount: position_of(self@, staker).amount,
                shares: position_of(self@, staker).shares,
                stake_share_bps: if self@.total_staked > 0 {
                    (position_of(self@, staker).amount * 10_000 / (self@.total_staked as int)) as i128
                } else {
                    0
                },
            }),
    {
        let pos = self.get_position(staker);
        let total = self.total_staked;
        proof {
            lemma_sum_shares_bounds(self@.positions, staker);
        }
        let share_bps = if total > 0 {
            assert(pos.amount * 10_000 <= total * 10_000);
            assert(0 <= pos.amount * 10_000 / (total as int) <= 10_000) by (nonlinear_arith)
                requires
                    0 <= pos.amount <= total,
                    total > 0,
            ;
            pos.amount * 10_000 / total
        } else {
            0
        };
        StakerStats { amount: pos.amount, shares: pos.shares, stake_share_bps: share_bps }
    }

    /// Stake `amount` tokens: mint shares (one per token into an empty
    /// pool, proportionally otherwise), add both to the staker's position
    /// and the totals, and move the tokens in.
    pub fn stake(&mut self, staker: AccountId, amount: i128) -> (r: Result<i128, StakingError>)
        requires
            old(self)@.wf(),
            stake_rejection(old(self)@, amount) is None ==> old(self)@.total_staked + amount
                <= i128::MAX && amount * old(self)@.total_shares <= i128::MAX,
        ensures
            final(self)@.wf(),
            stake_rejection(old(self)@, amount) matches Some(e) ==> r == Err::<i128, StakingError>(
                e,
            ) && final(self)@ == old(self)@,
            stake_rejection(old(self)@, amount) is None ==> ({
                let s = old(self)@;
                let shares = minted_shares(s.total_staked, s.total_shares, amount);
                let pos = position_of(s, staker);
                &&& r == Ok::<i128, StakingError>(shares as i128)
                &&& final(self)@ == StakingView {
                    total_staked: (s.total_staked + amount) as i128,
                    total_shares: (s.total_shares + shares) as i128,
                    positions: s.positions.insert(
                        staker,
                        StakePosition {
                            amount: (pos.amount + amount) as i128,
                            shares: (pos.shares + shares) as i128,
                        },
                    ),
                    transfers: s.transfers.push(TokenTransfer::In { from: staker, amount }),
                    events: s.events.push(
                        StakingEvent::Staked { staker, amount, shares: shares as i128 },
                    ),
                    ..s
                }
            }),
    {
        self.require_not_paused()?;
        self.require_initialized()?;
        if amount <= 0 {
            return Err(StakingError::InvalidAmount);
        }
        let total_staked = self.total_staked;
        let total_shares = self.total_shares;
        let ghost s = self@;
        proof {
            lemma_sum_shares_bounds(s.positions, staker);
        }
        let shares = if total_staked == 0 || total_shares == 0 {
            amount
        } else {
            assert(amount * total_shares / (total_staked as int) == amount) by (nonlinear_arith)
                requires
                    total_staked == total_shares,
                    total_staked > 0,
            ;
            amount * total_shares / total_staked
        };
        assert(shares == amount);
        self.total_staked = total_staked + amount;
        self.total_shares = total_shares + shares;
        let position = self.get_position(staker);
        let updated = StakePosition {
            amount: position.amount + amount,
            shares: position.shares + shares,
        };
        self.positions.insert(staker, updated);
        proof {
            lemma_sum_shares_insert(s.positions, staker, updated);
        }
        self.transfers.push(TokenTransfer::In { from: staker, amount });
        self.events.push(StakingEvent::Staked { staker, amount, shares });
        Ok(shares)
    }

    /// Redeem `shares` of the staker's position for the proportional part
    /// of the staked tokens (rounded down), removed from the position and
    /// the totals and moved out to the staker.
    pub fn unstake(&mut self, staker: AccountId, shares: i128) -> (r: Result<i128, StakingError>)
        requires
            old(self)@.wf(),
            unstake_rejection(old(self)@, staker, shares) is None ==> shares * old(self)@.total_staked <= i128::MAX,
        ensures
            final(self)@.wf(),
            unstake_rejection(old(self)@, staker, shares) matches Some(e) ==> r == Err::<
                i128,
                StakingError,
            >(e) && final(self)@ == old(self)@,
            unstake_rejection(old(self)@, staker, shares) is None ==> ({
                let s = old(self)@;
                let tokens = redeemed_tokens(s.total_staked, s.total_shares, shares);
                let pos = position_of(s, staker);
                &&& r == Ok::<i128, StakingError>(tokens as i128)
                &&& final(self)@ == StakingView {
                    total_staked: (s.total_staked - tokens) as i128,
                    total_shares: (s.total_shares - shares) as i128,
                    positions: s.positions.insert(
                        staker,
                        StakePosition {
                            amount: (pos.amount - tokens) as i128,
                            shares: (pos.shares - shares) as i128,
                        },
                    ),
                    transfers: s.transfers.push(TokenTransfer::Out { to: staker, amount: tokens as i128 }),
                    events: s.events.push(
                        StakingEvent::Unstaked { staker, tokens: tokens as i128, shares },
                    ),
                    ..s
                }
            }),
    {
        self.require_not_paused()?;
        self.require_initialized()?;
        if shares <= 0 {
            return Err(StakingError::InvalidAmount);
        }
        let position = self.get_position(staker);
        if position.shares < shares {
            return Err(StakingError::InsufficientShares);
        }
        let ghost s = self@;
        proof {
            lemma_sum_shares_bounds(s.positions, staker);
        }
        let total_staked = self.total_staked;
        let total_shares = self.total_shares;
        assert(shares * total_staked / (total_shares as int) == shares) by (nonlinear_arith)
            requires
                total_staked == total_shares,
                total_shares > 0,
        ;
        let tokens = shares * total_staked / total_shares;
        self.total_staked = total_staked - tokens;
        self.total_shares = total_shares - shares;
        let updated = StakePosition {
            amount: position.amount - tokens,
            shares: position.shares - shares,
        };
        self.positions.insert(staker, updated);
        proof {
            lemma_sum_shares_insert(s.positions, staker, updated);
        }
        self.transfers.push(TokenTransfer::Out { to: staker, amount: tokens });
        self.events.push(StakingEvent::Unstaked { staker, tokens, shares });
        Ok(tokens)
    }
}

/// Shares track tokens one to one: in a consistent pool, staking mints
/// exactly as many shares as tokens staked, and redeeming shares returns
/// exactly as many tokens as shares redeemed.
pub proof fn law_shares_match_tokens(s: StakingView, staker: AccountId, amount: i128, shares: i128)
    requires
        s.wf(),
    ensures
        amount > 0 ==> minted_shares(s.total_staked, s.total_shares, amount) == amount,
        unstake_rejection(s, staker, shares) is None ==> redeemed_tokens(
            s.total_staked,
            s.total_shares,
            shares,
        ) == shares,
{
    lemma_sum_shares_bounds(s.positions, staker);
    if s.total_staked != 0 && s.total_shares != 0 && amount > 0 {
        assert(amount * s.total_shares / (s.total_staked as int) == amount) by (nonlinear_arith)
            requires
                s.total_staked == s.total_shares,
                s.total_staked != 0,
        ;
    }
    if unstake_rejection(s, staker, shares) is None {
        assert(shares * s.total_staked / (s.total_shares as int) == shares) by (nonlinear_arith)
            requires
                s.total_staked == s.total_shares,
                s.total_shares > 0,
        ;
    }
}

/// Unstaking undoes staking: in a consistent pool, redeeming the shares
/// just minted for `amount` returns `amount`.
pub proof fn law_unstake_undoes_stake(s: StakingView, amount: i128)
    requires
        s.wf(),
        amount > 0,
        s.total_staked + amount <= i128::MAX,
    ensures
        ({
            let shares = minted_shares(s.total_staked, s.total_shares, amount);
            redeemed_tokens(
                (s.total_staked + amount) as i128,
                (s.total_shares + shares) as i128,
                shares as i128,
            ) == amount
        }),
{
    lemma_sum_shares_bounds(s.positions, 0);
    law_shares_match_tokens(s, 0, amount, 0);
    let t = (s.total_staked + amount) as i128;
    assert(amount * t / (t as int) == amount) by (nonlinear_arith)
        requires
            t > 0,
    ;
}

/// While the pool is paused, staking and unstaking are refused with
/// `Paused`.
pub proof fn law_pause_blocks_staking(s: StakingView, staker: AccountId, amount: i128)
    requires
        s.paused,
    ensures
        stake_rejection(s, amount) == Some(StakingError::Paused),
        unstake_rejection(s, staker, amount) == Some(StakingError::Paused),
{
}

} // verus!
