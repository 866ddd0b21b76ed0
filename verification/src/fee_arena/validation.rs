//! Input validation shared by the fee arena entry points.

use vstd::prelude::*;

use super::errors::ArenaError;

verus! {

/// The smallest entry fee an arena accepts, in stroops.
pub const MIN_ENTRY_FEE: i128 = 4_000_000;

/// Validate that an entry fee is within the contract bounds: at least
/// `MIN_ENTRY_FEE`.
pub fn validate_entry_fee(entry_fee: i128) -> (r: Result<(), ArenaError>)
    ensures
        r == (if entry_fee < MIN_ENTRY_FEE {
            Err::<(), ArenaError>(ArenaError::InvalidEntryFee)
        } else {
            Ok(())
        }),
{
    if entry_fee < MIN_ENTRY_FEE {
        return Err(ArenaError::InvalidEntryFee);
    }
    Ok(())
}

/// Validate that a join deadline is strictly in the future.
pub fn validate_deadline(deadline: u64, now: u64) -> (r: Result<(), ArenaError>)
    ensures
        r == (if deadline <= now {
            Err::<(), ArenaError>(ArenaError::DeadlineTooSoon)
        } else {
            Ok(())
        }),
{
    if deadline <= now {
        return Err(ArenaError::DeadlineTooSoon);
    }
    Ok(())
}

/// Validate that a deposit or stake amount is strictly positive.
pub fn validate_positive_amount(amount: i128) -> (r: Result<(), ArenaError>)
    ensures
        r == (if amount <= 0 {
            Err::<(), ArenaError>(ArenaError::InvalidEntryFee)
        } else {
            Ok(())
        }),
{
    if amount <= 0 {
        return Err(ArenaError::InvalidEntryFee);
    }
    Ok(())
}

} // verus!
