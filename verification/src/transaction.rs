//! Ledger events. A `Transaction` is one immutable record: its kind, the
//! client it concerns, a transaction id and, for deposits and withdrawals,
//! the amount moved. For the dispute family (dispute, resolve, chargeback)
//! `tx_id` names the earlier deposit or withdrawal under dispute; those
//! instructions carry no amount and no id of their own.

use vstd::prelude::*;

use crate::error::EngineError;
use crate::model::invalid_with;
use crate::money::Money;
use crate::report::{append_number, nat_digits};

verus! {

/// The five kinds of ledger event.
#[derive(Clone, Copy, Debug, PartialEq, Eq, Structural)]
pub enum TransactionType {
    Deposit,
    Withdrawal,
    Dispute,
    Resolve,
    Chargeback,
}

impl TransactionType {
    /// Deposits and withdrawals carry their own id and an amount.
    pub open spec fn carries_amount(self) -> bool {
        self is Deposit || self is Withdrawal
    }
}

/// One ledger event.
#[derive(Clone, Copy, Debug, PartialEq, Eq)]
pub struct Transaction {
    pub client: u16,
    pub tx_id: u32,
    pub kind: TransactionType,
    pub amount: Option<Money>,
}

impl Transaction {
    /// Deposits and withdrawals carry a strictly positive amount; the
    /// dispute family carries none.
    pub open spec fn valid(self) -> bool {
        match self.kind {
            TransactionType::Deposit | TransactionType::Withdrawal => {
                self.amount is Some && self.amount->0@ > 0
            },
            TransactionType::Dispute | TransactionType::Resolve | TransactionType::Chargeback => {
                self.amount is None
            },
        }
    }

    /// True iff the record satisfies the amount rule for its kind.
    pub fn is_valid(&self) -> (r: bool)
        ensures
            r == self.valid(),
    {
        match self.kind {
            TransactionType::Deposit | TransactionType::Withdrawal => {
                match self.amount {
                    Some(amount) => amount.minor > 0,
                    None => false,
                }
            },
            TransactionType::Dispute | TransactionType::Resolve | TransactionType::Chargeback => {
                match self.amount {
                    Some(_) => false,
                    None => true,
                }
            },
        }
    }

    /// A deposit of `amount` (strictly positive) for `client` under `tx_id`.
    pub fn new_deposit(client: u16, tx_id: u32, amount: Money) -> (r: Transaction)
        requires
            amount@ > 0,
        ensures
            r == (Transaction {
                client,
                tx_id,
                kind: TransactionType::Deposit,
                amount: Some(amount),
            }),
            r.valid(),
    {
        Transaction { client, tx_id, kind: TransactionType::Deposit, amount: Some(amount) }
    }

    /// A withdrawal of `amount` (strictly positive) for `client` under `tx_id`.
    pub fn new_withdrawal(client: u16, tx_id: u32, amount: Money) -> (r: Transaction)
        requires
            amount@ > 0,
        ensures
            r == (Transaction {
                client,
                tx_id,
                kind: TransactionType::Withdrawal,
                amount: Some(amount),
            }),
            r.valid(),
    {
        Transaction { client, tx_id, kind: TransactionType::Withdrawal, amount: Some(amount) }
    }

    /// A dispute by `client` of the stored transaction `tx_id`.
    pub fn new_dispute(client: u16, tx_id: u32) -> (r: Transaction)
        ensures
            r == (Transaction { client, tx_id, kind: TransactionType::Dispute, amount: None }),
            r.valid(),
    {
        Transaction { client, tx_id, kind: TransactionType::Dispute, amount: None }
    }

    /// A resolution by `client` of the dispute on the stored transaction `tx_id`.
    pub fn new_resolve(client: u16, tx_id: u32) -> (r: Transaction)
        ensures
            r == (Transaction { client, tx_id, kind: TransactionType::Resolve, amount: None }),
            r.valid(),
    {
        Transaction { client, tx_id, kind: TransactionType::Resolve, amount: None }
    }

    /// Build a transaction from the plain parts of a decoded record. A
    /// deposit or withdrawal must carry an amount; everything else about the
    /// record (amount sign, references, duplicates) is the ledger's job to
    /// judge, so it passes through unchanged.
    pub fn from_parts(kind: TransactionType, client: u16, tx_id: u32, amount: Option<Money>) -> (r:
        Result<Transaction, EngineError>)
        ensures
            match r {
                Ok(t) => {
                    &&& !(kind.carries_amount() && amount is None)
                    &&& t == (Transaction { client, tx_id, kind, amount })
                },
                Err(e) => {
                    &&& kind.carries_amount() && amount is None
                    &&& invalid_with(
                        e,
                        "Missing amount for transaction "@ + nat_digits(tx_id as nat),
                    )
                },
            },
    {
        match kind {
            TransactionType::Deposit | TransactionType::Withdrawal => {
                if amount.is_none() {
                    let mut message = "Missing amount for transaction ".to_owned();
                    append_number(&mut message, tx_id as u64);
                    return Err(EngineError::InvalidTransaction { message });
                }
            },
            TransactionType::Dispute | TransactionType::Resolve | TransactionType::Chargeback => {
            },
        }
        Ok(Transaction { client, tx_id, kind, amount })
    }

    /// A chargeback by `client` of the dispute on the stored transaction `tx_id`.
    pub fn new_chargeback(client: u16, tx_id: u32) -> (r: Transaction)
        ensures
            r == (Transaction { client, tx_id, kind: TransactionType::Chargeback, amount: None }),
            r.valid(),
    {
        Transaction { client, tx_id, kind: TransactionType::Chargeback, amount: None }
    }
}

} // verus!
