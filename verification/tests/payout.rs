use inverse_arena::payout::{PayoutContract, PayoutError, PayoutEvent};
use inverse_arena::{AccountId, TokenTransfer};

const ADMIN: AccountId = 1;
const TOKEN: AccountId = 2;

/// A payout contract whose token balance is `funding`.
struct Fixture {
    contract: PayoutContract,
    balance: i128,
}

impl Fixture {
    fn paid_to(&self, who: AccountId) -> i128 {
        let mut total = 0;
        for t in self.contract.transfers.iter() {
            if let TokenTransfer::Out { to, amount } = t {
                if *to == who {
                    total += *amount;
                }
            }
        }
        total
    }

    fn distribute_winnings(&mut self, id: u64, winner: AccountId, amount: i128) -> Result<(), PayoutError> {
        let r = self.contract.distribute_winnings(id, winner, amount, self.balance);
        if r.is_ok() {
            self.balance -= amount;
        }
        r
    }

    fn distribute_batch(&mut self, id: u64, recipients: &Vec<(AccountId, i128)>) -> Result<(), PayoutError> {
        let r = self.contract.distribute_batch(id, recipients, self.balance);
        if r.is_ok() {
            for (_, a) in recipients.iter() {
                self.balance -= *a;
            }
        }
        r
    }
}

fn setup(funding: i128) -> Fixture {
    let mut contract = PayoutContract::new();
    contract.initialize(ADMIN, TOKEN).unwrap();
    Fixture { contract, balance: funding }
}

#[test]
fn distributes_single_winner() {
    let mut fx = setup(1_000);
    let winner: AccountId = 50;
    fx.distribute_winnings(1, winner, 600).unwrap();
    assert_eq!(fx.paid_to(winner), 600);
    assert!(fx.contract.is_paid(1));
}

#[test]
fn rejects_duplicate_payout_id() {
    let mut fx = setup(1_000);
    let winner: AccountId = 50;
    fx.distribute_winnings(7, winner, 100).unwrap();
    let again = fx.distribute_winnings(7, winner, 100);
    assert!(again.is_err());
    assert_eq!(again, Err(PayoutError::AlreadyPaid));
    assert_eq!(fx.paid_to(winner), 100);
}

#[test]
fn rejects_non_positive_amount() {
    let mut fx = setup(1_000);
    let winner: AccountId = 50;
    assert!(fx.distribute_winnings(1, winner, 0).is_err());
    assert_eq!(fx.distribute_winnings(1, winner, 0), Err(PayoutError::InvalidAmount));
}

#[test]
fn distributes_batch_to_multiple_recipients() {
    let mut fx = setup(1_000);
    let a: AccountId = 50;
    let b: AccountId = 51;
    let recipients = vec![(a, 300i128), (b, 150i128)];
    fx.distribute_batch(42, &recipients).unwrap();
    assert_eq!(fx.paid_to(a), 300);
    assert_eq!(fx.paid_to(b), 150);
    assert!(fx.contract.is_paid(42));
}

#[test]
fn rejects_empty_batch() {
    let mut fx = setup(1_000);
    let recipients: Vec<(AccountId, i128)> = Vec::new();
    assert!(fx.distribute_batch(1, &recipients).is_err());
    assert_eq!(fx.distribute_batch(1, &recipients), Err(PayoutError::EmptyBatch));
}

#[test]
fn distribute_batch_rejects_duplicate_recipients() {
    let mut fx = setup(1_000);
    let a: AccountId = 50;
    let recipients = vec![(a, 200i128), (a, 300i128)];
    let err = fx.distribute_batch(1, &recipients);
    assert!(err.is_err());
    assert_eq!(err, Err(PayoutError::DuplicateRecipient));
    assert_eq!(fx.paid_to(a), 0);
}

#[test]
fn distribute_before_initialise_fails() {
    let mut contract = PayoutContract::new();
    let winner: AccountId = 50;
    assert!(contract.distribute_winnings(1, winner, 10, 1_000).is_err());
    assert_eq!(contract.distribute_winnings(1, winner, 10, 1_000), Err(PayoutError::NotInitialised));
}

#[test]
fn initialize_twice_is_refused() {
    let mut fx = setup(0);
    assert_eq!(fx.contract.initialize(9, 9), Err(PayoutError::AlreadyInitialised));
    assert_eq!(fx.contract.admin(), Some(ADMIN));
    assert_eq!(fx.contract.token(), Some(TOKEN));
}

#[test]
fn single_payout_beyond_balance_is_refused_and_not_marked() {
    let mut fx = setup(100);
    assert_eq!(fx.distribute_winnings(3, 50, 101), Err(PayoutError::InsufficientBalance));
    assert!(!fx.contract.is_paid(3));
    fx.distribute_winnings(3, 50, 100).unwrap();
    assert!(fx.contract.is_paid(3));
}

#[test]
fn batch_beyond_balance_is_refused() {
    let mut fx = setup(400);
    let recipients = vec![(50, 300i128), (51, 150i128)];
    assert_eq!(fx.distribute_batch(5, &recipients), Err(PayoutError::InsufficientBalance));
    assert!(!fx.contract.is_paid(5));
}

#[test]
fn batch_with_non_positive_amount_is_refused() {
    let mut fx = setup(1_000);
    let recipients = vec![(50, 10i128), (51, 0i128), (50, 5i128)];
    assert_eq!(fx.distribute_batch(5, &recipients), Err(PayoutError::InvalidAmount));
}

#[test]
fn payout_id_used_by_single_payout_blocks_batch() {
    let mut fx = setup(1_000);
    fx.distribute_winnings(9, 50, 10).unwrap();
    let recipients = vec![(51, 10i128)];
    assert_eq!(fx.distribute_batch(9, &recipients), Err(PayoutError::AlreadyPaid));
}

#[test]
fn batch_publishes_one_event_per_recipient() {
    let mut fx = setup(1_000);
    let recipients = vec![(50, 300i128), (51, 150i128)];
    fx.distribute_batch(42, &recipients).unwrap();
    assert_eq!(
        fx.contract.events,
        vec![
            PayoutEvent { recipient: 50, payout_id: 42, amount: 300 },
            PayoutEvent { recipient: 51, payout_id: 42, amount: 150 },
        ]
    );
}
