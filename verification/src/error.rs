//! The ledger's error taxonomy. Every failure is per-transaction and leaves
//! the engine's state unchanged; callers report the error and continue with
//! the next transaction.

use vstd::prelude::*;

verus! {

/// Why a transaction was rejected.
#[derive(Debug, PartialEq, Eq)]
pub enum EngineError {
    /// Any transaction submitted against a locked account.
    AccountLocked(u16),
    /// A deposit or withdrawal reusing an id already in the history.
    DuplicateTransaction(u32),
    /// A dispute-family transaction whose client does not match the
    /// referenced transaction's client (expected, actual).
    InvalidClient(u16, u16),
    /// A dispute-family transaction referencing a stored withdrawal.
    InvalidOperationOnWithdrawal,
    /// A dispute-family transaction referencing an unknown id.
    NonExistentTransaction(u32),
    /// A withdrawal exceeding the available balance.
    InsufficientFunds,
    /// Catch-all structural or semantic violation: a missing or non-positive
    /// amount, or the defensive out-of-range balance guards.
    InvalidTransaction { message: String },
}

impl EngineError {
    /// A short description of the error, for reporting.
    pub fn describe(&self) -> (r: String)
        ensures
            match self {
                EngineError::AccountLocked(_) => r@ == "Account locked"@,
                EngineError::DuplicateTransaction(_) => r@ == "Transaction already exists"@,
                EngineError::InvalidClient(_, _) => r@
                    == "Referenced transaction does not belong to the same client"@,
                EngineError::InvalidOperationOnWithdrawal => r@
                    == "Withdrawal cannot be disputed"@,
                EngineError::NonExistentTransaction(_) => r@
                    == "Referenced transaction does not exist"@,
                EngineError::InsufficientFunds => r@ == "Insufficient funds"@,
                EngineError::InvalidTransaction { message } => r@ == message@,
            },
    {
        match self {
            EngineError::AccountLocked(_) => "Account locked".to_owned(),
            EngineError::DuplicateTransaction(_) => "Transaction already exists".to_owned(),
            EngineError::InvalidClient(_, _) => {
                "Referenced transaction does not belong to the same client".to_owned()
            },
            EngineError::InvalidOperationOnWithdrawal => "Withdrawal cannot be disputed".to_owned(),
            EngineError::NonExistentTransaction(_) => {
                "Referenced transaction does not exist".to_owned()
            },
            EngineError::InsufficientFunds => "Insufficient funds".to_owned(),
            EngineError::InvalidTransaction { message } => message.clone(),
        }
    }
}

} // verus!
