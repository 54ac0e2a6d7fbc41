//! Payments out of the engine's treasury.
//!
//! The engine holds no funds itself: its balance is the host's to report and
//! the native transfer is the host's to perform. The engine decides whether a
//! payment may be attempted and what its outcome means.

use vstd::prelude::*;
use crate::account::AccountId;
use crate::records::GovernorError;

verus! {

/// A native transfer that the host is to attempt.
#[derive(Clone, Copy, Debug, PartialEq, Eq)]
pub struct Payment {
    pub to: AccountId,
    pub amount: u128,
}

/// The payment to attempt when `amount` is to go to `to` and the treasury
/// holds `balance`: none if the treasury holds less than `amount`.
pub open spec fn payment_order(to: AccountId, amount: u128, balance: u128) -> Result<
    Payment,
    GovernorError,
> {
    if amount > balance {
        Err(GovernorError::NotEnoughBalance)
    } else {
        Ok(Payment { to, amount })
    }
}

/// What an attempted native transfer comes to.
pub open spec fn settlement(sent: bool) -> Result<(), GovernorError> {
    if sent {
        Ok(())
    } else {
        Err(GovernorError::TransactionFailed)
    }
}

impl Payment {
    /// The result of the operation that ordered this payment, once the host
    /// has attempted it: `sent` says whether the native transfer succeeded.
    /// Whatever made it fail, the failure is reported as `TransactionFailed`.
    pub fn settle(self, sent: bool) -> (result: Result<(), GovernorError>)
        ensures
            result == settlement(sent),
            result is Ok <==> sent,
    {
        if sent {
            Ok(())
        } else {
            Err(GovernorError::TransactionFailed)
        }
    }
}

} // verus!
