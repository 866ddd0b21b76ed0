//! Two-step admin transfer with an expiry: the current admin proposes a
//! successor, who must accept before the proposal expires.

use vstd::prelude::*;

use crate::AccountId;

verus! {

/// The errors that an admin transfer reports, chosen by the contract using it.
#[derive(Clone, Copy, PartialEq, Eq, Structural, Debug)]
pub struct AdminTransferErrors<E> {
    pub no_pending: E,
    pub unauthorized: E,
    pub expired: E,
}

/// The storage slots an admin transfer works on: the admin, the proposed
/// admin and the time at which the proposal expires.
#[derive(Clone, Copy, PartialEq, Eq, Structural, Debug)]
pub struct AdminSlots {
    pub admin: Option<AccountId>,
    pub pending_admin: Option<AccountId>,
    pub admin_expiry: Option<u64>,
}

/// Why accepting a transfer at time `now` would fail, if it would.
pub open spec fn accept_rejection<E>(
    slots: AdminSlots,
    new_admin: AccountId,
    errors: AdminTransferErrors<E>,
    now: u64,
) -> Option<E> {
    match slots.pending_admin {
        None => Some(errors.no_pending),
        Some(p) => if p != new_admin {
            Some(errors.unauthorized)
        } else {
            match slots.admin_expiry {
                None => Some(errors.no_pending),
                Some(e) => if now > e {
                    Some(errors.expired)
                } else {
                    None
                },
            }
        },
    }
}

/// Whether `new_admin` is the proposed admin of a proposal that has
/// expired by time `now`.
pub open spec fn proposal_expired(slots: AdminSlots, new_admin: AccountId, now: u64) -> bool {
    &&& slots.pending_admin == Some(new_admin)
    &&& slots.admin_expiry matches Some(e) && now > e
}

/// Propose `new_admin` at time `now`, expiring `transfer_expiry_seconds`
/// later; replaces any earlier proposal. Returns the expiry time.
pub fn propose_admin_transfer(
    slots: &mut AdminSlots,
    new_admin: AccountId,
    transfer_expiry_seconds: u64,
    now: u64,
) -> (expires_at: u64)
    requires
        now + transfer_expiry_seconds <= u64::MAX,
    ensures
        expires_at == now + transfer_expiry_seconds,
        *final(slots) == (AdminSlots {
            pending_admin: Some(new_admin),
            admin_expiry: Some(expires_at),
            ..*old(slots)
        }),
{
    let expires_at = now + transfer_expiry_seconds;
    slots.pending_admin = Some(new_admin);
    slots.admin_expiry = Some(expires_at);
    expires_at
}

/// Accept the pending transfer as `new_admin` at time `now`: only the
/// proposed account, and only until the expiry (inclusive). An expired
/// proposal is cleared and reported as expired; a successful acceptance
/// makes `new_admin` the admin and clears the proposal.
pub fn accept_admin_transfer<E: Copy>(
    slots: &mut AdminSlots,
    new_admin: AccountId,
    errors: AdminTransferErrors<E>,
    now: u64,
) -> (r: Result<(), E>)
    ensures
        accept_rejection(*old(slots), new_admin, errors, now) is None ==> r is Ok && *final(slots)
            == (AdminSlots { admin: Some(new_admin), pending_admin: None, admin_expiry: None }),
        accept_rejection(*old(slots), new_admin, errors, now) matches Some(e) ==> r == Err::<(), E>(
            e,
        ) && *final(slots) == (if proposal_expired(*old(slots), new_admin, now) {
            AdminSlots { pending_admin: None, admin_expiry: None, ..*old(slots) }
        } else {
            *old(slots)
        }),
{
    let pending = match slots.pending_admin {
        Some(p) => p,
        None => return Err(errors.no_pending),
    };
    if pending != new_admin {
        return Err(errors.unauthorized);
    }
    let expires_at = match slots.admin_expiry {
        Some(e) => e,
        None => return Err(errors.no_pending),
    };
    if now > expires_at {
        slots.pending_admin = None;
        slots.admin_expiry = None;
        return Err(errors.expired);
    }
    slots.admin = Some(new_admin);
    slots.pending_admin = None;
    slots.admin_expiry = None;
    Ok(())
}

/// Withdraw the pending proposal; fails with `no_pending` when there is
/// none.
pub fn cancel_admin_transfer<E: Copy>(slots: &mut AdminSlots, no_pending: E) -> (r: Result<(), E>)
    ensures
        old(slots).pending_admin is None ==> r == Err::<(), E>(no_pending) && *final(slots)
            == *old(slots),
        old(slots).pending_admin is Some ==> r is Ok && *final(slots) == (AdminSlots {
            pending_admin: None,
            admin_expiry: None,
            ..*old(slots)
        }),
{
    if slots.pending_admin.is_none() {
        return Err(no_pending);
    }
    slots.pending_admin = None;
    slots.admin_expiry = None;
    Ok(())
}

/// The pending proposal and its expiry, when both are stored.
pub fn pending_admin_transfer(slots: &AdminSlots) -> (r: Option<(AccountId, u64)>)
    ensures
        r == (match (slots.pending_admin, slots.admin_expiry) {
            (Some(a), Some(e)) => Some((a, e)),
            _ => None,
        }),
{
    match (slots.pending_admin, slots.admin_expiry) {
        (Some(a), Some(e)) => Some((a, e)),
        _ => None,
    }
}

/// A proposal can be accepted by the proposed account up to its expiry:
/// right after proposing `new_admin` at `now`, accepting as `new_admin` at
/// any time up to the expiry succeeds, and accepting as anyone else is
/// refused as unauthorized.
pub proof fn law_proposal_accepts_until_expiry<E>(
    slots: AdminSlots,
    new_admin: AccountId,
    other: AccountId,
    errors: AdminTransferErrors<E>,
    now: u64,
    secs: u64,
    later: u64,
)
    requires
        now + secs <= u64::MAX,
        later <= now + secs,
        other != new_admin,
    ensures
        ({
            let proposed = AdminSlots {
                pending_admin: Some(new_admin),
                admin_expiry: Some((now + secs) as u64),
                ..slots
            };
            &&& accept_rejection(proposed, new_admin, errors, later) is None
            &&& accept_rejection(proposed, other, errors, later) == Some(errors.unauthorized)
        }),
{
}

/// A proposal cannot be accepted after its expiry, nor after it was
/// cancelled or accepted.
pub proof fn law_proposal_is_single_use<E>(
    slots: AdminSlots,
    new_admin: AccountId,
    errors: AdminTransferErrors<E>,
    now: u64,
)
    requires
        slots.admin_expiry matches Some(e) && now > e,
        slots.pending_admin == Some(new_admin),
    ensures
        accept_rejection(slots, new_admin, errors, now) == Some(errors.expired),
        accept_rejection(
            AdminSlots { pending_admin: None, admin_expiry: None, ..slots },
            new_admin,
            errors,
            now,
        ) == Some(errors.no_pending),
{
}

} // verus!
