//! The treasury: one balance, deposits into it and withdrawals from it.

use vstd::prelude::*;
use crate::error::DaoError;

verus! {

/// The balance after a deposit of `amount`. Only a positive amount can be deposited.
pub open spec fn deposited(balance: int, amount: int) -> Result<int, DaoError> {
    if amount <= 0 {
        Err(DaoError::InvalidAmount)
    } else {
        Ok(balance + amount)
    }
}

/// The balance after a withdrawal of `amount`. No more than the balance can be
/// withdrawn.
pub open spec fn withdrawn(balance: int, amount: int) -> Result<int, DaoError> {
    if amount > balance {
        Err(DaoError::InsufficientFunds)
    } else {
        Ok(balance - amount)
    }
}

/// Whether an executable outcome is the balance, or the refusal, that `expected` names.
pub open spec fn balance_is(outcome: Result<i128, DaoError>, expected: Result<int, DaoError>) -> bool {
    match outcome {
        Ok(balance) => expected == Ok::<int, DaoError>(balance as int),
        Err(e) => expected == Err::<int, DaoError>(e),
    }
}

/// Adds `amount` to `balance`.
pub fn deposit(balance: i128, amount: i128) -> (outcome: Result<i128, DaoError>)
    requires
        amount > 0 ==> balance + amount <= i128::MAX,
    ensures
        balance_is(outcome, deposited(balance as int, amount as int)),
{
    if amount <= 0 {
        Err(DaoError::InvalidAmount)
    } else {
        Ok(balance + amount)
    }
}

/// Takes `amount` out of `balance`.
pub fn withdraw(balance: i128, amount: i128) -> (outcome: Result<i128, DaoError>)
    requires
        amount > 0,
    ensures
        balance_is(outcome, withdrawn(balance as int, amount as int)),
        outcome matches Ok(rest) ==> rest >= 0,
{
    if amount > balance {
        Err(DaoError::InsufficientFunds)
    } else {
        Ok(balance - amount)
    }
}

} // verus!
