//! The ledger's mathematical model.
//!
//! `LedgerState` is the ghost view of an engine: a map from client id to
//! account and a map from transaction id to the stored deposit or withdrawal.
//! `rejection` says exactly which transactions are refused and why, and
//! `step` says exactly what the next state is; the executable engine is
//! proved to follow both. Laws about the ledger are stated over these
//! functions.

use vstd::prelude::*;

use crate::account::Account;
use crate::error::EngineError;
use crate::money::Money;
use crate::transaction::{Transaction, TransactionType};

verus! {

/// The ghost state of a ledger engine: all accounts and the history of
/// stored deposits and withdrawals.
pub ghost struct LedgerState {
    pub accounts: Map<u16, Account>,
    pub history: Map<u32, Transaction>,
}

/// Why the model refuses a transaction. Each variant carries the data that
/// the corresponding `EngineError` reports.
pub ghost enum Rejection {
    /// The client's account is locked.
    Locked(u16),
    /// A deposit or withdrawal reuses a stored id.
    Duplicate(u32),
    /// A deposit or withdrawal carries no amount; the field records which.
    MissingAmount(TransactionType),
    /// A deposit or withdrawal carries a non-positive amount.
    NonPositiveAmount,
    /// The new balance would not fit in the money representation.
    OutOfRange,
    /// A withdrawal exceeds the available balance.
    Insufficient,
    /// A dispute-family transaction references an unknown id.
    Unknown(u32),
    /// A dispute-family transaction from the wrong client (expected, actual).
    ForeignClient(u16, u16),
    /// A dispute-family transaction references a stored withdrawal.
    DisputedWithdrawal,
    /// The referenced stored record carries no amount (never reached from a
    /// well-formed state).
    StoredAmountMissing,
}

/// The smaller of two integers.
pub open spec fn min_int(a: int, b: int) -> int {
    if a < b {
        a
    } else {
        b
    }
}

/// `e` is the error that the rejection `rej` prescribes.
pub open spec fn matches_rejection(e: EngineError, rej: Rejection) -> bool {
    match rej {
        Rejection::Locked(client) => e == EngineError::AccountLocked(client),
        Rejection::Duplicate(id) => e == EngineError::DuplicateTransaction(id),
        Rejection::MissingAmount(kind) => {
            if kind is Deposit {
                invalid_with(e, "Deposit must have an amount"@)
            } else {
                invalid_with(e, "Withdrawal must have an amount"@)
            }
        },
        Rejection::NonPositiveAmount => invalid_with(e, "Amount must be positive"@),
        Rejection::OutOfRange => invalid_with(e, "Balance out of range"@),
        Rejection::Insufficient => e == EngineError::InsufficientFunds,
        Rejection::Unknown(id) => e == EngineError::NonExistentTransaction(id),
        Rejection::ForeignClient(expected, actual) => e == EngineError::InvalidClient(
            expected,
            actual,
        ),
        Rejection::DisputedWithdrawal => e == EngineError::InvalidOperationOnWithdrawal,
        Rejection::StoredAmountMissing => invalid_with(e, "Transaction has no amount"@),
    }
}

/// `e` is the catch-all error with message `msg`.
pub open spec fn invalid_with(e: EngineError, msg: Seq<char>) -> bool {
    e matches EngineError::InvalidTransaction { message } && message@ == msg
}

impl LedgerState {
    /// The account of `client`, or a fresh zero account if none exists yet.
    pub open spec fn account_or_fresh(self, client: u16) -> Account {
        if self.accounts.contains_key(client) {
            self.accounts[client]
        } else {
            Account::fresh(client)
        }
    }

    /// The account of `client` satisfies the balance invariants.
    pub open spec fn account_ok(self, client: u16) -> bool {
        let a = self.accounts[client];
        &&& a.client == client
        &&& a.balanced()
        &&& a.available@ >= 0
        &&& a.held@ >= 0
    }

    /// The stored record under `id` is a deposit or withdrawal keyed by its
    /// own id and carrying a strictly positive amount.
    pub open spec fn entry_ok(self, id: u32) -> bool {
        let t = self.history[id];
        &&& t.tx_id == id
        &&& t.kind.carries_amount()
        &&& t.amount is Some
        &&& t.amount->0@ > 0
    }

    /// Well-formedness: every account is balanced and non-negative, every
    /// stored record is a valid deposit or withdrawal.
    pub open spec fn wf(self) -> bool {
        &&& forall|client: u16| #[trigger]
            self.accounts.contains_key(client) ==> self.account_ok(client)
        &&& forall|id: u32| #[trigger] self.history.contains_key(id) ==> self.entry_ok(id)
    }

    /// Why `tx` is refused in this state, or `None` if it is accepted.
    /// The checks run in the ledger's fixed order: locked account first,
    /// then the rules of the transaction's kind.
    pub open spec fn rejection(self, tx: Transaction) -> Option<Rejection> {
        let a = self.account_or_fresh(tx.client);
        if a.locked {
            Some(Rejection::Locked(tx.client))
        } else {
            match tx.kind {
                TransactionType::Deposit | TransactionType::Withdrawal => {
                    if self.history.contains_key(tx.tx_id) {
                        Some(Rejection::Duplicate(tx.tx_id))
                    } else {
                        match tx.amount {
                            Option::None => Some(Rejection::MissingAmount(tx.kind)),
                            Option::Some(m) => {
                                if m@ <= 0 {
                                    Some(Rejection::NonPositiveAmount)
                                } else if tx.kind is Deposit {
                                    if a.total@ + m@ > i64::MAX {
                                        Some(Rejection::OutOfRange)
                                    } else {
                                        None
                                    }
                                } else {
                                    if a.available@ < m@ {
                                        Some(Rejection::Insufficient)
                                    } else {
                                        None
                                    }
                                }
                            },
                        }
                    }
                },
                TransactionType::Dispute | TransactionType::Resolve
                    | TransactionType::Chargeback => {
                    if !self.history.contains_key(tx.tx_id) {
                        Some(Rejection::Unknown(tx.tx_id))
                    } else {
                        let orig = self.history[tx.tx_id];
                        if orig.client != tx.client {
                            Some(Rejection::ForeignClient(orig.client, tx.client))
                        } else if orig.kind is Withdrawal {
                            Some(Rejection::DisputedWithdrawal)
                        } else if orig.amount is None {
                            Some(Rejection::StoredAmountMissing)
                        } else {
                            None
                        }
                    }
                },
            }
        }
    }

    /// The state after `tx`. A refused transaction changes nothing except
    /// the lazy creation of the client's account; an accepted one applies
    /// its balance rule and, for deposits and withdrawals, is stored.
    pub open spec fn step(self, tx: Transaction) -> LedgerState {
        let a = self.account_or_fresh(tx.client);
        if self.rejection(tx) is Some {
            LedgerState { accounts: self.accounts.insert(tx.client, a), history: self.history }
        } else {
            match tx.kind {
                TransactionType::Deposit => {
                    let m = tx.amount->0@;
                    let updated = Account {
                        available: Money { minor: (a.available@ + m) as i64 },
                        total: Money { minor: (a.total@ + m) as i64 },
                        ..a
                    };
                    LedgerState {
                        accounts: self.accounts.insert(tx.client, updated),
                        history: self.history.insert(tx.tx_id, tx),
                    }
                },
                TransactionType::Withdrawal => {
                    let m = tx.amount->0@;
                    let updated = Account {
                        available: Money { minor: (a.available@ - m) as i64 },
                        total: Money { minor: (a.total@ - m) as i64 },
                        ..a
                    };
                    LedgerState {
                        accounts: self.accounts.insert(tx.client, updated),
                        history: self.history.insert(tx.tx_id, tx),
                    }
                },
                TransactionType::Dispute => {
                    let m = self.history[tx.tx_id].amount->0@;
                    let clamped = min_int(m, a.available@);
                    let updated = Account {
                        available: Money { minor: (a.available@ - clamped) as i64 },
                        held: Money { minor: (a.held@ + clamped) as i64 },
                        ..a
                    };
                    LedgerState {
                        accounts: self.accounts.insert(tx.client, updated),
                        history: self.history,
                    }
                },
                TransactionType::Resolve => {
                    let m = self.history[tx.tx_id].amount->0@;
                    let clamped = min_int(m, a.held@);
                    let updated = Account {
                        available: Money { minor: (a.available@ + clamped) as i64 },
                        held: Money { minor: (a.held@ - clamped) as i64 },
                        ..a
                    };
                    LedgerState {
                        accounts: self.accounts.insert(tx.client, updated),
                        history: self.history,
                    }
                },
                TransactionType::Chargeback => {
                    let m = self.history[tx.tx_id].amount->0@;
                    let clamped = min_int(m, a.held@);
                    let updated = Account {
                        held: Money { minor: (a.held@ - clamped) as i64 },
                        total: Money { minor: (a.total@ - clamped) as i64 },
                        locked: true,
                        ..a
                    };
                    LedgerState {
                        accounts: self.accounts.insert(tx.client, updated),
                        history: self.history,
                    }
                },
            }
        }
    }
}

} // verus!
