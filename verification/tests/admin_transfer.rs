use inverse_arena::admin_transfer::{
    accept_admin_transfer, cancel_admin_transfer, pending_admin_transfer, propose_admin_transfer,
    AdminSlots, AdminTransferErrors,
};

#[derive(Clone, Copy, Debug, PartialEq, Eq)]
enum E {
    NoPending,
    Unauthorized,
    Expired,
}

const ERRORS: AdminTransferErrors<E> =
    AdminTransferErrors { no_pending: E::NoPending, unauthorized: E::Unauthorized, expired: E::Expired };

fn slots() -> AdminSlots {
    AdminSlots { admin: Some(1), pending_admin: None, admin_expiry: None }
}

#[test]
fn propose_then_accept_before_expiry() {
    let mut s = slots();
    let expires = propose_admin_transfer(&mut s, 2, 100, 1_000);
    assert_eq!(expires, 1_100);
    assert_eq!(pending_admin_transfer(&s), Some((2, 1_100)));
    assert_eq!(accept_admin_transfer(&mut s, 2, ERRORS, 1_100), Ok(()));
    assert_eq!(s, AdminSlots { admin: Some(2), pending_admin: None, admin_expiry: None });
}

#[test]
fn accept_by_other_account_is_unauthorized() {
    let mut s = slots();
    propose_admin_transfer(&mut s, 2, 100, 1_000);
    assert_eq!(accept_admin_transfer(&mut s, 3, ERRORS, 1_050), Err(E::Unauthorized));
    assert_eq!(pending_admin_transfer(&s), Some((2, 1_100)));
}

#[test]
fn accept_after_expiry_clears_the_proposal() {
    let mut s = slots();
    propose_admin_transfer(&mut s, 2, 100, 1_000);
    assert_eq!(accept_admin_transfer(&mut s, 2, ERRORS, 1_101), Err(E::Expired));
    assert_eq!(s, slots());
    assert_eq!(accept_admin_transfer(&mut s, 2, ERRORS, 1_000), Err(E::NoPending));
}

#[test]
fn cancel_removes_the_proposal() {
    let mut s = slots();
    assert_eq!(cancel_admin_transfer(&mut s, E::NoPending), Err(E::NoPending));
    propose_admin_transfer(&mut s, 2, 100, 1_000);
    assert_eq!(cancel_admin_transfer(&mut s, E::NoPending), Ok(()));
    assert_eq!(pending_admin_transfer(&s), None);
    assert_eq!(accept_admin_transfer(&mut s, 2, ERRORS, 1_000), Err(E::NoPending));
}
