//! The payout contract: admin-gated distribution of winnings, idempotent per
//! payout id so that a retried request can never pay twice.

use vstd::prelude::*;

use std::collections::HashSet;

use crate::num::{clamp_i128, saturating_add_i128};
use crate::{AccountId, TokenTransfer};

verus! {

broadcast use vstd::std_specs::hash::group_hash_axioms;

/// Errors returned by payout entry points.
#[derive(Clone, Copy, PartialEq, Eq, Structural, Debug)]
pub enum PayoutError {
    /// The contract has not been initialised with an admin and token.
    NotInitialised,
    /// `initialize` was called on an already-initialised contract.
    AlreadyInitialised,
    /// Caller is not the configured admin.
    Unauthorized,
    /// A payout with this id has already been executed.
    AlreadyPaid,
    /// A payout amount was zero or negative.
    InvalidAmount,
    /// A batch payout was submitted with no recipients.
    EmptyBatch,
    /// The contract's token balance cannot cover the payout.
    InsufficientBalance,
    /// A batch contains duplicate recipient addresses.
    DuplicateRecipient,
}

/// An event published by the payout contract: `amount` paid to `recipient`
/// under `payout_id`.
#[derive(Clone, Copy, PartialEq, Eq, Structural, Debug)]
pub struct PayoutEvent {
    pub recipient: AccountId,
    pub payout_id: u64,
    pub amount: i128,
}

/// The stored state of the payout contract.
pub struct PayoutStorage {
    pub admin: Option<AccountId>,
    pub token: Option<AccountId>,
    /// The payout ids already executed.
    pub paid: HashSet<u64>,
}

/// The mathematical view of the payout contract's stored state.
pub struct PayoutStorageView {
    pub admin: Option<AccountId>,
    pub token: Option<AccountId>,
    pub paid: Set<u64>,
}

impl View for PayoutStorage {
    type V = PayoutStorageView;

    open spec fn view(&self) -> PayoutStorageView {
        PayoutStorageView { admin: self.admin, token: self.token, paid: self.paid@ }
    }
}

impl PayoutStorage {
    /// Nothing stored.
    pub fn new() -> (s: PayoutStorage)
        ensures
            s@ == (PayoutStorageView { admin: None, token: None, paid: Set::empty() }),
    {
        PayoutStorage { admin: None, token: None, paid: HashSet::new() }
    }

    pub fn has_admin(&self) -> (b: bool)
        ensures
            b == self@.admin is Some,
    {
        self.admin.is_some()
    }

    pub fn set_admin(&mut self, admin: AccountId)
        ensures
            final(self)@ == (PayoutStorageView { admin: Some(admin), ..old(self)@ }),
    {
        self.admin = Some(admin);
    }

    /// The admin, or `NotInitialised`.
    pub fn get_admin(&self) -> (r: Result<AccountId, PayoutError>)
        ensures
            r == (match self@.admin {
                Some(a) => Ok::<AccountId, PayoutError>(a),
                None => Err(PayoutError::NotInitialised),
            }),
    {
        match self.admin {
            Some(a) => Ok(a),
            None => Err(PayoutError::NotInitialised),
        }
    }

    pub fn set_token(&mut self, token: AccountId)
        ensures
            final(self)@ == (PayoutStorageView { token: Some(token), ..old(self)@ }),
    {
        self.token = Some(token);
    }

    /// The payout token, or `NotInitialised`.
    pub fn get_token(&self) -> (r: Result<AccountId, PayoutError>)
        ensures
            r == (match self@.token {
                Some(t) => Ok::<AccountId, PayoutError>(t),
                None => Err(PayoutError::NotInitialised),
            }),
    {
        match self.token {
            Some(t) => Ok(t),
            None => Err(PayoutError::NotInitialised),
        }
    }

    /// Whether a payout id has been executed.
    pub fn is_paid(&self, payout_id: u64) -> (b: bool)
        ensures
            b == self@.paid.contains(payout_id),
    {
        self.paid.contains(&payout_id)
    }

    /// Record a payout id as executed.
    pub fn mark_paid(&mut self, payout_id: u64)
        ensures
            final(self)@ == (PayoutStorageView {
                paid: old(self)@.paid.insert(payout_id),
                ..old(self)@
            }),
    {
        self.paid.insert(payout_id);
    }
}

/// The payout contract: its stored state, the events it has published and
/// the token movements it has requested.
pub struct PayoutContract {
    pub storage: PayoutStorage,
    pub events: Vec<PayoutEvent>,
    pub transfers: Vec<TokenTransfer>,
}

/// The mathematical view of the payout contract.
pub struct PayoutView {
    pub storage: PayoutStorageView,
    pub events: Seq<PayoutEvent>,
    pub transfers: Seq<TokenTransfer>,
}

impl View for PayoutContract {
    type V = PayoutView;

    open spec fn view(&self) -> PayoutView {
        PayoutView { storage: self.storage@, events: self.events@, transfers: self.transfers@ }
    }
}

/// Why a single-winner payout would be refused, if it would; `balance` is
/// the contract's token balance.
pub open spec fn winnings_rejection(
    s: PayoutStorageView,
    payout_id: u64,
    amount: i128,
    balance: i128,
) -> Option<PayoutError> {
    if s.admin is None {
        Some(PayoutError::NotInitialised)
    } else if amount <= 0 {
        Some(PayoutError::InvalidAmount)
    } else if s.paid.contains(payout_id) {
        Some(PayoutError::AlreadyPaid)
    } else if s.token is None {
        Some(PayoutError::NotInitialised)
    } else if amount > balance {
        Some(PayoutError::InsufficientBalance)
    } else {
        None
    }
}

/// The first problem found scanning a batch in order: a non-positive
/// amount, or a recipient that already appeared earlier.
pub open spec fn batch_problem(rs: Seq<(AccountId, i128)>) -> Option<PayoutError>
    decreases rs.len(),
{
    if rs.len() == 0 {
        None
    } else {
        match batch_problem(rs.drop_last()) {
            Some(e) => Some(e),
            None => if rs.last().1 <= 0 {
                Some(PayoutError::InvalidAmount)
            } else if exists|j: int| 0 <= j < rs.len() - 1 && (#[trigger] rs[j]).0 == rs.last().0 {
                Some(PayoutError::DuplicateRecipient)
            } else {
                None
            },
        }
    }
}

/// The total of a batch, added up saturating at `i128::MAX`.
pub open spec fn batch_total(rs: Seq<(AccountId, i128)>) -> i128
    decreases rs.len(),
{
    if rs.len() == 0 {
        0
    } else {
        clamp_i128(batch_total(rs.drop_last()) + rs.last().1)
    }
}

/// The exact total of a batch.
pub open spec fn batch_sum(rs: Seq<(AccountId, i128)>) -> int
    decreases rs.len(),
{
    if rs.len() == 0 {
        0
    } else {
        batch_sum(rs.drop_last()) + rs.last().1
    }
}

/// Why a batch payout would be refused, if it would; `balance` is the
/// contract's token balance.
pub open spec fn batch_rejection(
    s: PayoutStorageView,
    payout_id: u64,
    rs: Seq<(AccountId, i128)>,
    balance: i128,
) -> Option<PayoutError> {
    if s.admin is None {
        Some(PayoutError::NotInitialised)
    } else if rs.len() == 0 {
        Some(PayoutError::EmptyBatch)
    } else if batch_problem(rs) is Some {
        batch_problem(rs)
    } else if s.token is None {
        Some(PayoutError::NotInitialised)
    } else if batch_total(rs) > balance {
        Some(PayoutError::InsufficientBalance)
    } else if s.paid.contains(payout_id) {
        Some(PayoutError::AlreadyPaid)
    } else {
        None
    }
}

/// The transfers of a batch, in order.
pub open spec fn batch_transfers(rs: Seq<(AccountId, i128)>) -> Seq<TokenTransfer> {
    rs.map_values(|r: (AccountId, i128)| TokenTransfer::Out { to: r.0, amount: r.1 })
}

/// The events of a batch, in order.
pub open spec fn batch_events(payout_id: u64, rs: Seq<(AccountId, i128)>) -> Seq<PayoutEvent> {
    rs.map_values(|r: (AccountId, i128)| PayoutEvent { recipient: r.0, payout_id, amount: r.1 })
}

/// Whether `a` occurs in `seen`.
fn contains_account(seen: &Vec<AccountId>, a: AccountId) -> (b: bool)
    ensures
        b == seen@.contains(a),
{
    let mut i: usize = 0;
    while i < seen.len()
        invariant
            i <= seen.len(),
            forall|j: int| 0 <= j < i ==> seen@[j] != a,
        decreases seen.len() - i,
    {
        if seen[i] == a {
            assert(seen@[i as int] == a);
            return true;
        }
        i += 1;
    }
    false
}

impl PayoutContract {
    /// A payout contract with nothing stored.
    pub fn new() -> (c: PayoutContract)
        ensures
            c@ == (PayoutView {
                storage: PayoutStorageView { admin: None, token: None, paid: Set::empty() },
                events: Seq::empty(),
                transfers: Seq::empty(),
            }),
    {
        PayoutContract { storage: PayoutStorage::new(), events: Vec::new(), transfers: Vec::new() }
    }

    /// Record the admin allowed to distribute and the payout token, once.
    pub fn initialize(&mut self, admin: AccountId, token: AccountId) -> (r: Result<
        (),
        PayoutError,
    >)
        ensures
            old(self)@.storage.admin is Some ==> r == Err::<(), PayoutError>(
                PayoutError::AlreadyInitialised,
            ) && final(self)@ == old(self)@,
            old(self)@.storage.admin is None ==> r is Ok && final(self)@ == (PayoutView {
                storage: PayoutStorageView {
                    admin: Some(admin),
                    token: Some(token),
                    ..old(self)@.storage
                },
                ..old(self)@
            }),
    {
        if self.storage.has_admin() {
            return Err(PayoutError::AlreadyInitialised);
        }
        self.storage.set_admin(admin);
        self.storage.set_token(token);
        Ok(())
    }

    /// Pay `amount` of the payout token to `winner` under `payout_id`, at
    /// most once per id; `contract_balance` is the contract's token balance.
    pub fn distribute_winnings(
        &mut self,
        payout_id: u64,
        winner: AccountId,
        amount: i128,
        contract_balance: i128,
    ) -> (r: Result<(), PayoutError>)
        ensures
            winnings_rejection(old(self)@.storage, payout_id, amount, contract_balance) matches Some(
                e,
            ) ==> r == Err::<(), PayoutError>(e) && final(self)@ == old(self)@,
            winnings_rejection(old(self)@.storage, payout_id, amount, contract_balance) is None
                ==> r is Ok && final(self)@ == (PayoutView {
                storage: PayoutStorageView {
                    paid: old(self)@.storage.paid.insert(payout_id),
                    ..old(self)@.storage
                },
                events: old(self)@.events.push(
                    PayoutEvent { recipient: winner, payout_id, amount },
                ),
                transfers: old(self)@.transfers.push(TokenTransfer::Out { to: winner, amount }),
            }),
    {
        let _admin = self.storage.get_admin()?;
        if amount <= 0 {
            return Err(PayoutError::InvalidAmount);
        }
        if self.storage.is_paid(payout_id) {
            return Err(PayoutError::AlreadyPaid);
        }
        let _token = self.storage.get_token()?;
        if amount > contract_balance {
            return Err(PayoutError::InsufficientBalance);
        }
        self.storage.mark_paid(payout_id);
        self.transfers.push(TokenTransfer::Out { to: winner, amount });
        self.events.push(PayoutEvent { recipient: winner, payout_id, amount });
        Ok(())
    }

    /// Pay every recipient of a batch its amount under `payout_id`, at
    /// most once per id. Every amount must be positive and no recipient may
    /// appear twice; the batch's total must not exceed `contract_balance`,
    /// the contract's token balance.
    pub fn distribute_batch(
        &mut self,
        payout_id: u64,
        recipients: &Vec<(AccountId, i128)>,
        contract_balance: i128,
    ) -> (r: Result<(), PayoutError>)
        ensures
            batch_rejection(old(self)@.storage, payout_id, recipients@, contract_balance) matches Some(
                e,
            ) ==> r == Err::<(), PayoutError>(e) && final(self)@ == old(self)@,
            batch_rejection(old(self)@.storage, payout_id, recipients@, contract_balance) is None
                ==> r is Ok && final(self)@ == (PayoutView {
                storage: PayoutStorageView {
                    paid: old(self)@.storage.paid.insert(payout_id),
                    ..old(self)@.storage
                },
                events: old(self)@.events + batch_events(payout_id, recipients@),
                transfers: old(self)@.transfers + batch_transfers(recipients@),
            }),
    {
        let _admin = self.storage.get_admin()?;
        if recipients.len() == 0 {
            return Err(PayoutError::EmptyBatch);
        }
        let rs = Ghost(recipients@);
        let mut seen: Vec<AccountId> = Vec::new();
        let mut total_amount: i128 = 0;
        let mut i: usize = 0;
        while i < recipients.len()
            invariant
                rs@ == recipients@,
                self@ == old(self)@,
                old(self)@.storage.admin is Some,
                recipients.len() > 0,
                i <= recipients.len(),
                batch_problem(rs@.take(i as int)) is None,
                total_amount == batch_total(rs@.take(i as int)),
                seen@ == rs@.take(i as int).map_values(|r: (AccountId, i128)| r.0),
            decreases recipients.len() - i,
        {
            let (recipient, amount) = recipients[i];
            let ghost prefix = rs@.take(i as int);
            let ghost next = rs@.take(i + 1);
            assert(next.drop_last() =~= prefix);
            assert(next.last() == (recipient, amount));
            if amount <= 0 {
                proof {
                    assert(batch_problem(next) == Some(PayoutError::InvalidAmount));
                    lemma_batch_problem_extends(rs@, i as int + 1);
                    assert(batch_problem(rs@) == Some(PayoutError::InvalidAmount));
                }
                return Err(PayoutError::InvalidAmount);
            }
            if contains_account(&seen, recipient) {
                proof {
                    let j = choose|j: int| 0 <= j < seen@.len() && seen@[j] == recipient;
                    assert(prefix[j] == next[j]);
                    assert(next[j].0 == recipient);
                    assert(batch_problem(next) == Some(PayoutError::DuplicateRecipient));
                    lemma_batch_problem_extends(rs@, i as int + 1);
                    assert(batch_problem(rs@) == Some(PayoutError::DuplicateRecipient));
                }
                return Err(PayoutError::DuplicateRecipient);
            }
            proof {
                if exists|j: int| 0 <= j < next.len() - 1 && (#[trigger] next[j]).0 == next.last().0 {
                    let j = choose|j: int| 0 <= j < next.len() - 1 && (#[trigger] next[j]).0 == next.last().0;
                    assert(seen@[j] == recipient);
                }
            }
            seen.push(recipient);
            total_amount = saturating_add_i128(total_amount, amount);
            assert(seen@ =~= next.map_values(|r: (AccountId, i128)| r.0));
            i += 1;
        }
        assert(rs@.take(recipients.len() as int) =~= rs@);
        let _token = self.storage.get_token()?;
        if total_amount > contract_balance {
            return Err(PayoutError::InsufficientBalance);
        }
        if self.storage.is_paid(payout_id) {
            return Err(PayoutError::AlreadyPaid);
        }
        self.storage.mark_paid(payout_id);
        let ghost ev0 = self.events@;
        let ghost tr0 = self.transfers@;
        let mut k: usize = 0;
        while k < recipients.len()
            invariant
                rs@ == recipients@,
                k <= recipients.len(),
                self.storage@ == (PayoutStorageView {
                    paid: old(self)@.storage.paid.insert(payout_id),
                    ..old(self)@.storage
                }),
                self.events@ == ev0 + batch_events(payout_id, rs@.take(k as int)),
                self.transfers@ == tr0 + batch_transfers(rs@.take(k as int)),
            decreases recipients.len() - k,
        {
            let (recipient, amount) = recipients[k];
            self.transfers.push(TokenTransfer::Out { to: recipient, amount });
            self.events.push(PayoutEvent { recipient, payout_id, amount });
            assert(batch_events(payout_id, rs@.take(k + 1)) =~= batch_events(
                payout_id,
                rs@.take(k as int),
            ).push(PayoutEvent { recipient, payout_id, amount }));
            assert(batch_transfers(rs@.take(k + 1)) =~= batch_transfers(rs@.take(k as int)).push(
                TokenTransfer::Out { to: recipient, amount },
            ));
            k += 1;
        }
        assert(rs@.take(recipients.len() as int) =~= rs@);
        Ok(())
    }

    /// Whether a payout id has been executed.
    pub fn is_paid(&self, payout_id: u64) -> (b: bool)
        ensures
            b == self@.storage.paid.contains(payout_id),
    {
        self.storage.is_paid(payout_id)
    }

    /// The admin, if initialised.
    pub fn admin(&self) -> (a: Option<AccountId>)
        ensures
            a == self@.storage.admin,
    {
        match self.storage.get_admin() {
            Ok(a) => Some(a),
            Err(_) => None,
        }
    }

    /// The payout token, if initialised.
    pub fn token(&self) -> (t: Option<AccountId>)
        ensures
            t == self@.storage.token,
    {
        match self.storage.get_token() {
            Ok(t) => Some(t),
            Err(_) => None,
        }
    }
}

/// A problem found in a prefix of a batch is the batch's problem too.
pub proof fn lemma_batch_problem_extends(rs: Seq<(AccountId, i128)>, n: int)
    requires
        0 <= n <= rs.len(),
        batch_problem(rs.take(n)) is Some,
    ensures
        batch_problem(rs) == batch_problem(rs.take(n)),
    decreases rs.len() - n,
{
    if n < rs.len() {
        let next = rs.take(n + 1);
        assert(next.drop_last() =~= rs.take(n));
        lemma_batch_problem_extends(rs, n + 1);
    } else {
        assert(rs.take(n) =~= rs);
    }
}

/// A batch without problems has no recipient twice.
proof fn lemma_batch_problem_distinct(rs: Seq<(AccountId, i128)>)
    requires
        batch_problem(rs) is None,
    ensures
        forall|i: int, j: int| 0 <= i < j < rs.len() ==> rs[i].0 != rs[j].0,
        forall|i: int| 0 <= i < rs.len() ==> rs[i].1 > 0,
    decreases rs.len(),
{
    if rs.len() > 0 {
        let prefix = rs.drop_last();
        lemma_batch_problem_distinct(prefix);
        assert forall|i: int, j: int| 0 <= i < j < rs.len() implies rs[i].0 != rs[j].0 by {
            if j == rs.len() - 1 {
                assert(rs[i] == rs[i]);
            } else {
                assert(rs[i] == prefix[i] && rs[j] == prefix[j]);
            }
        }
        assert forall|i: int| 0 <= i < rs.len() implies rs[i].1 > 0 by {
            if i < rs.len() - 1 {
                assert(rs[i] == prefix[i]);
            }
        }
    }
}

/// A batch whose recipients are distinct and whose amounts are positive has
/// no problem.
proof fn lemma_batch_without_problem(rs: Seq<(AccountId, i128)>)
    requires
        forall|i: int, j: int| 0 <= i < j < rs.len() ==> rs[i].0 != rs[j].0,
        forall|i: int| 0 <= i < rs.len() ==> rs[i].1 > 0,
    ensures
        batch_problem(rs) is None,
    decreases rs.len(),
{
    if rs.len() > 0 {
        let prefix = rs.drop_last();
        assert forall|i: int, j: int| 0 <= i < j < prefix.len() implies prefix[i].0 != prefix[j].0 by {
            assert(prefix[i] == rs[i] && prefix[j] == rs[j]);
        }
        assert forall|i: int| 0 <= i < prefix.len() implies prefix[i].1 > 0 by {
            assert(prefix[i] == rs[i]);
        }
        lemma_batch_without_problem(prefix);
        assert(rs.last().1 > 0);
        assert(!exists|j: int| 0 <= j < rs.len() - 1 && (#[trigger] rs[j]).0 == rs.last().0) by {
            assert forall|j: int| 0 <= j < rs.len() - 1 implies (#[trigger] rs[j]).0 != rs.last().0 by {
                assert(rs.last() == rs[rs.len() - 1]);
            }
        }
    }
}

/// With positive amounts, the saturating total is the exact total clamped.
proof fn lemma_batch_total_clamps(rs: Seq<(AccountId, i128)>)
    requires
        forall|i: int| 0 <= i < rs.len() ==> rs[i].1 > 0,
    ensures
        batch_total(rs) == clamp_i128(batch_sum(rs)),
        batch_sum(rs) >= 0,
    decreases rs.len(),
{
    if rs.len() > 0 {
        let prefix = rs.drop_last();
        assert forall|i: int| 0 <= i < prefix.len() implies prefix[i].1 > 0 by {
            assert(prefix[i] == rs[i]);
        }
        lemma_batch_total_clamps(prefix);
        assert(rs.last().1 > 0);
    }
}

/// A payout id pays at most once: once a single or batch payout under an
/// id has succeeded, every later payout under that id is refused.
pub proof fn law_payout_id_pays_once(
    s: PayoutStorageView,
    payout_id: u64,
    winner_amount: i128,
    rs: Seq<(AccountId, i128)>,
    balance: i128,
)
    ensures
        winnings_rejection(
            PayoutStorageView { paid: s.paid.insert(payout_id), ..s },
            payout_id,
            winner_amount,
            balance,
        ) is Some,
        batch_rejection(
            PayoutStorageView { paid: s.paid.insert(payout_id), ..s },
            payout_id,
            rs,
            balance,
        ) is Some,
{
}

/// A sound batch is accepted: on an initialized contract, a non-empty batch
/// with distinct recipients and positive amounts whose total the balance
/// covers, under an id not paid yet, is paid.
pub proof fn law_sound_batch_is_accepted(
    s: PayoutStorageView,
    payout_id: u64,
    rs: Seq<(AccountId, i128)>,
    balance: i128,
)
    requires
        s.admin is Some,
        s.token is Some,
        !s.paid.contains(payout_id),
        rs.len() > 0,
        forall|i: int, j: int| 0 <= i < j < rs.len() ==> rs[i].0 != rs[j].0,
        forall|i: int| 0 <= i < rs.len() ==> rs[i].1 > 0,
        batch_sum(rs) <= balance,
    ensures
        batch_rejection(s, payout_id, rs, balance) is None,
{
    lemma_batch_without_problem(rs);
    lemma_batch_total_clamps(rs);
}

/// A successful batch pays nobody twice, pays only positive amounts, and
/// never pays out more than the contract's balance (when the exact total
/// fits in `i128`).
pub proof fn law_batch_is_sound(
    s: PayoutStorageView,
    payout_id: u64,
    rs: Seq<(AccountId, i128)>,
    balance: i128,
)
    requires
        batch_rejection(s, payout_id, rs, balance) is None,
    ensures
        forall|i: int, j: int| 0 <= i < j < rs.len() ==> rs[i].0 != rs[j].0,
        forall|i: int| 0 <= i < rs.len() ==> rs[i].1 > 0,
        batch_sum(rs) <= i128::MAX ==> batch_sum(rs) <= balance,
{
    lemma_batch_problem_distinct(rs);
    lemma_batch_total_clamps(rs);
}

} // verus!
