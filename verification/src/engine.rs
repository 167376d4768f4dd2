//! The transaction ledger engine.
//!
//! The free functions below are the five balance rules; each states exactly
//! how the account changes and which error comes back on which input, and a
//! failure never touches the account. `Engine` owns the accounts and the
//! history and applies whole transactions through `apply_transaction`,
//! proved to follow the model in `crate::model`.

use vstd::prelude::*;

use std::collections::HashMap;

use crate::account::Account;
use crate::error::EngineError;
use crate::model::{invalid_with, matches_rejection, min_int, LedgerState};
use crate::money::Money;
use crate::report::{append_row, report_chars, rows_match};
use crate::transaction::{Transaction, TransactionType};

verus! {

/// The ledger engine: the sole owner and mutator of the accounts and of the
/// history of stored deposits and withdrawals.
pub struct Engine {
    accounts: HashMap<u16, Account>,
    transactions: HashMap<u32, Transaction>,
}

impl View for Engine {
    type V = LedgerState;

    closed spec fn view(&self) -> LedgerState {
        LedgerState { accounts: self.accounts@, history: self.transactions@ }
    }
}

impl Engine {
    /// The engine's state is well-formed (see `LedgerState::wf`).
    pub open spec fn wf(&self) -> bool {
        self@.wf()
    }

    /// An empty engine: no accounts, no history.
    pub fn new() -> (r: Engine)
        ensures
            r@.accounts == Map::<u16, Account>::empty(),
            r@.history == Map::<u32, Transaction>::empty(),
            r.wf(),
    {
        Engine { accounts: HashMap::new(), transactions: HashMap::new() }
    }

    /// The account stored for `client`, if that client has been seen.
    pub fn get_account(&self, client: u16) -> (r: Option<&Account>)
        ensures
            match r {
                Some(a) => self@.accounts.contains_key(client) && *a == self@.accounts[client],
                None => !self@.accounts.contains_key(client),
            },
    {
        self.accounts.get(&client)
    }

    /// The stored deposit or withdrawal under `tx_id`, if any.
    pub fn get_transaction(&self, tx_id: u32) -> (r: Option<&Transaction>)
        ensures
            match r {
                Some(t) => self@.history.contains_key(tx_id) && *t == self@.history[tx_id],
                None => !self@.history.contains_key(tx_id),
            },
    {
        self.transactions.get(&tx_id)
    }

    /// True iff a deposit or withdrawal is stored under `tx_id`.
    pub fn contains_transaction(&self, tx_id: u32) -> (r: bool)
        ensures
            r == self@.history.contains_key(tx_id),
    {
        self.transactions.contains_key(&tx_id)
    }

    /// How many deposits and withdrawals are stored.
    pub fn transaction_count(&self) -> (r: usize)
        ensures
            r == self@.history.dom().len(),
    {
        self.transactions.len()
    }

    /// Apply one transaction: look up or lazily create the client's account,
    /// run the checks of `LedgerState::rejection` in order, and on acceptance
    /// apply the balance rule of the transaction's kind, storing deposits and
    /// withdrawals in the history.
    ///
    /// The new state is exactly `old(self)@.step(tx)`; the result is `Ok`
    /// exactly when the model accepts the transaction, and otherwise the
    /// error prescribed by the model's rejection. A failure mutates nothing:
    /// the history and every existing account are unchanged, and at most the
    /// client's account is lazily created with zero balances.
    pub fn apply_transaction(&mut self, tx: Transaction) -> (r: Result<(), EngineError>)
        requires
            old(self).wf(),
        ensures
            final(self).wf(),
            final(self)@ == old(self)@.step(tx),
            match r {
                Ok(_) => old(self)@.rejection(tx) is None,
                Err(e) => old(self)@.rejection(tx) matches Some(rej) && matches_rejection(e, rej),
            },
            r is Err ==> final(self)@.history == old(self)@.history,
            r is Err ==> forall|c: u16| #[trigger]
                old(self)@.accounts.contains_key(c) ==> final(self)@.accounts[c] == old(
                    self,
                )@.accounts[c],
    {
        let acct: Account = match self.accounts.get(&tx.client) {
            Some(a) => *a,
            None => Account::new(tx.client),
        };

        if acct.locked {
            self.accounts.insert(tx.client, acct);
            return Err(EngineError::AccountLocked(tx.client));
        }

        match tx.kind {
            TransactionType::Deposit | TransactionType::Withdrawal => {
                if self.transactions.contains_key(&tx.tx_id) {
                    self.accounts.insert(tx.client, acct);
                    return Err(EngineError::DuplicateTransaction(tx.tx_id));
                }
                let amount: Money = match tx.amount {
                    Some(m) => m,
                    None => {
                        self.accounts.insert(tx.client, acct);
                        let message = if tx.kind == TransactionType::Deposit {
                            "Deposit must have an amount".to_owned()
                        } else {
                            "Withdrawal must have an amount".to_owned()
                        };
                        return Err(EngineError::InvalidTransaction { message });
                    },
                };
                if amount.minor <= 0 {
                    self.accounts.insert(tx.client, acct);
                    return Err(EngineError::InvalidTransaction {
                        message: "Amount must be positive".to_owned(),
                    });
                }
                let mut updated = acct;
                let outcome = if tx.kind == TransactionType::Deposit {
                    deposit(&mut updated, amount)
                } else {
                    withdraw(&mut updated, amount)
                };
                match outcome {
                    Ok(_) => {
                        self.accounts.insert(tx.client, updated);
                        self.transactions.insert(tx.tx_id, tx);
                        Ok(())
                    },
                    Err(e) => {
                        self.accounts.insert(tx.client, updated);
                        Err(e)
                    },
                }
            },
            TransactionType::Dispute | TransactionType::Resolve | TransactionType::Chargeback => {
                let orig: Transaction = match self.transactions.get(&tx.tx_id) {
                    Some(t) => *t,
                    None => {
                        self.accounts.insert(tx.client, acct);
                        return Err(EngineError::NonExistentTransaction(tx.tx_id));
                    },
                };
                if orig.client != tx.client {
                    self.accounts.insert(tx.client, acct);
                    return Err(EngineError::InvalidClient(orig.client, tx.client));
                }
                if orig.kind == TransactionType::Withdrawal {
                    self.accounts.insert(tx.client, acct);
                    return Err(EngineError::InvalidOperationOnWithdrawal);
                }
                let mut updated = acct;
                let outcome = if tx.kind == TransactionType::Dispute {
                    dispute(&mut updated, &orig)
                } else if tx.kind == TransactionType::Resolve {
                    resolve(&mut updated, &orig)
                } else {
                    chargeback(&mut updated, &orig)
                };
                self.accounts.insert(tx.client, updated);
                outcome
            },
        }
    }

    /// Render the current account set as the snapshot table: the header
    /// line, then one line per account, in whatever order the account
    /// collection yields its entries. `rows_match` pins the set of rows;
    /// their order is not specified. Pure read: the engine is unchanged.
    #[verifier::rlimit(100)]
    #[verifier::loop_isolation(false)]
    pub fn dump_accounts(&self) -> (r: String)
        ensures
            exists|rows: Seq<(u16, Account)>|
                #[trigger] rows_match(self@.accounts, rows) && r@ == report_chars(rows),
    {
        let mut out: String = "client,available,held,total,locked\n".to_owned();

        let ghost mut rows: Seq<(u16, Account)> = Seq::empty();
        for pair in it: self.accounts.iter()
            invariant
                out@ == report_chars(rows),
                rows == it.seq().take(it.index()).unref(),
                it.index() == it.seq().len() ==> rows_match(self@.accounts, rows),
        {
            let ghost i = it.index();
            let ghost prev = rows;
            append_row(&mut out, *pair.0, pair.1);
            proof {
                rows = prev.push((*pair.0, *pair.1));
                assert(rows.drop_last() =~= prev);
                assert(out@ =~= report_chars(rows));
            }
            assert(i + 1 == it.seq().len() ==> rows_match(self@.accounts, rows)) by {
                if i + 1 == it.seq().len() {
                    assert(rows =~= it.seq().unref());
                    lemma_rows_collected(self@.accounts, it.seq(), rows);
                }
            };
        }

        proof {
            assert(rows_match(self@.accounts, rows));
        }

        out
    }
}

/// From the facts that the account map's iterator yields every stored pair
/// exactly once, the collected pair sequence matches the map: `v` is the
/// iterator's full yield, `rows` the pairs collected from it.
proof fn lemma_rows_collected(m: Map<u16, Account>, v: Seq<(&u16, &Account)>, rows: Seq<
    (u16, Account),
>)
    requires
        v.len() == m.dom().len(),
        forall|i: int|
            0 <= i < v.len() ==> m.contains_key(*(#[trigger] v[i]).0) && m[*v[i].0] == *v[i].1,
        forall|k: u16| #[trigger] m.contains_key(k) ==> v.contains((&k, &m[k])),
        v.no_duplicates(),
        rows == v.unref(),
    ensures
        rows_match(m, rows),
{
    assert forall|i: int, j: int| 0 <= i < j < rows.len() implies (#[trigger] rows[i]).0 != (
    #[trigger] rows[j]).0 by {
        if rows[i].0 == rows[j].0 {
            assert(m.contains_key(*v[i].0) && m[*v[i].0] == *v[i].1);
            assert(m.contains_key(*v[j].0) && m[*v[j].0] == *v[j].1);
            assert(v[i] == v[j]);
            assert(false);
        }
    }
    assert forall|k: u16| #[trigger] m.contains_key(k) implies exists|i: int|
        0 <= i < rows.len() && (#[trigger] rows[i]).0 == k by {
        assert(v.contains((&k, &m[k])));
        let idx = choose|idx: int| 0 <= idx < v.len() && v[idx] == (&k, &m[k]);
        assert(rows[idx].0 == k);
    }
    assert forall|i: int| 0 <= i < rows.len() implies m.contains_pair(
        (#[trigger] rows[i]).0,
        rows[i].1,
    ) by {
        assert(m.contains_key(*v[i].0) && m[*v[i].0] == *v[i].1);
    }
}

/// Credit `amount` (which may be negative: the defensive guards below catch
/// the bad cases) to available and total.
///
/// Exact behaviour: with `na` the new available count and `nt` the new total
/// count, the call fails if `nt` would be negative, then if either count
/// leaves the representable range; otherwise both fields are updated. A
/// failure leaves the account unchanged.
pub fn deposit(account: &mut Account, amount: Money) -> (r: Result<(), EngineError>)
    ensures
        ({
            let na = old(account).available@ + amount@;
            let nt = old(account).total@ + amount@;
            if nt < 0 {
                &&& r matches Err(e) && invalid_with(e, "Total balance is negative"@)
                &&& *final(account) == *old(account)
            } else if !(i64::MIN <= na <= i64::MAX) || nt > i64::MAX {
                &&& r matches Err(e) && invalid_with(e, "Balance out of range"@)
                &&& *final(account) == *old(account)
            } else {
                &&& r is Ok
                &&& *final(account) == (Account {
                    available: Money { minor: na as i64 },
                    total: Money { minor: nt as i64 },
                    ..*old(account)
                })
            }
        }),
{
    let na: i128 = account.available.minor as i128 + amount.minor as i128;
    let nt: i128 = account.total.minor as i128 + amount.minor as i128;

    if nt < 0 {
        return Err(EngineError::InvalidTransaction {
            message: "Total balance is negative".to_owned(),
        });
    }
    if na < i64::MIN as i128 || na > i64::MAX as i128 || nt > i64::MAX as i128 {
        return Err(EngineError::InvalidTransaction { message: "Balance out of range".to_owned() });
    }

    account.available = Money { minor: na as i64 };
    account.total = Money { minor: nt as i64 };

    Ok(())
}

/// Debit `amount` from available and total.
///
/// Exact behaviour: fails with `InsufficientFunds` when available is below
/// `amount`; then fails if either new count leaves the representable range;
/// otherwise both fields are reduced. A failure leaves the account unchanged.
pub fn withdraw(account: &mut Account, amount: Money) -> (r: Result<(), EngineError>)
    ensures
        ({
            let na = old(account).available@ - amount@;
            let nt = old(account).total@ - amount@;
            if old(account).available@ < amount@ {
                &&& r == Err::<(), EngineError>(EngineError::InsufficientFunds)
                &&& *final(account) == *old(account)
            } else if !(i64::MIN <= na <= i64::MAX) || !(i64::MIN <= nt <= i64::MAX) {
                &&& r matches Err(e) && invalid_with(e, "Balance out of range"@)
                &&& *final(account) == *old(account)
            } else {
                &&& r is Ok
                &&& *final(account) == (Account {
                    available: Money { minor: na as i64 },
                    total: Money { minor: nt as i64 },
                    ..*old(account)
                })
            }
        }),
{
    if account.available.minor < amount.minor {
        return Err(EngineError::InsufficientFunds);
    }

    let na: i128 = account.available.minor as i128 - amount.minor as i128;
    let nt: i128 = account.total.minor as i128 - amount.minor as i128;

    if na < i64::MIN as i128 || na > i64::MAX as i128 || nt < i64::MIN as i128 || nt > i64::MAX
        as i128 {
        return Err(EngineError::InvalidTransaction { message: "Balance out of range".to_owned() });
    }

    account.available = Money { minor: na as i64 };
    account.total = Money { minor: nt as i64 };

    Ok(())
}

/// Hold the disputed deposit's amount, clamped to what is still available,
/// by moving it from available to held. Total is unchanged.
///
/// Exact behaviour: fails if `tx` carries no amount; with `c` the clamped
/// amount, fails if either new count leaves the representable range;
/// otherwise moves `c` from available to held. A failure leaves the account
/// unchanged.
pub fn dispute(account: &mut Account, tx: &Transaction) -> (r: Result<(), EngineError>)
    ensures
        ({
            let c = min_int(tx.amount->0@, old(account).available@);
            let na = old(account).available@ - c;
            let nh = old(account).held@ + c;
            if tx.amount is None {
                &&& r matches Err(e) && invalid_with(e, "Transaction has no amount"@)
                &&& *final(account) == *old(account)
            } else if !(i64::MIN <= na <= i64::MAX) || !(i64::MIN <= nh <= i64::MAX) {
                &&& r matches Err(e) && invalid_with(e, "Balance out of range"@)
                &&& *final(account) == *old(account)
            } else {
                &&& r is Ok
                &&& *final(account) == (Account {
                    available: Money { minor: na as i64 },
                    held: Money { minor: nh as i64 },
                    ..*old(account)
                })
            }
        }),
{
    let amount = match tx.amount {
        Some(amount) => amount,
        None => {
            return Err(EngineError::InvalidTransaction {
                message: "Transaction has no amount".to_owned(),
            });
        },
    };

    let clamped: i64 = if account.available.minor < amount.minor {
        account.available.minor
    } else {
        amount.minor
    };

    let na: i128 = account.available.minor as i128 - clamped as i128;
    let nh: i128 = account.held.minor as i128 + clamped as i128;

    if na < i64::MIN as i128 || na > i64::MAX as i128 || nh < i64::MIN as i128 || nh > i64::MAX
        as i128 {
        return Err(EngineError::InvalidTransaction { message: "Balance out of range".to_owned() });
    }

    account.available = Money { minor: na as i64 };
    account.held = Money { minor: nh as i64 };

    Ok(())
}

/// Release the disputed deposit's amount, clamped to what is still held,
/// back from held to available. Total is unchanged.
///
/// Exact behaviour: fails if `tx` carries no amount; with `c` the clamped
/// amount, fails if either new count leaves the representable range;
/// otherwise moves `c` from held to available. A failure leaves the account
/// unchanged.
pub fn resolve(account: &mut Account, tx: &Transaction) -> (r: Result<(), EngineError>)
    ensures
        ({
            let c = min_int(tx.amount->0@, old(account).held@);
            let na = old(account).available@ + c;
            let nh = old(account).held@ - c;
            if tx.amount is None {
                &&& r matches Err(e) && invalid_with(e, "Transaction has no amount"@)
                &&& *final(account) == *old(account)
            } else if !(i64::MIN <= na <= i64::MAX) || !(i64::MIN <= nh <= i64::MAX) {
                &&& r matches Err(e) && invalid_with(e, "Balance out of range"@)
                &&& *final(account) == *old(account)
            } else {
                &&& r is Ok
                &&& *final(account) == (Account {
                    available: Money { minor: na as i64 },
                    held: Money { minor: nh as i64 },
                    ..*old(account)
                })
            }
        }),
{
    let amount = match tx.amount {
        Some(amount) => amount,
        None => {
            return Err(EngineError::InvalidTransaction {
                message: "Transaction has no amount".to_owned(),
            });
        },
    };

    let clamped: i64 = if account.held.minor < amount.minor {
        account.held.minor
    } else {
        amount.minor
    };

    let na: i128 = account.available.minor as i128 + clamped as i128;
    let nh: i128 = account.held.minor as i128 - clamped as i128;

    if na < i64::MIN as i128 || na > i64::MAX as i128 || nh < i64::MIN as i128 || nh > i64::MAX
        as i128 {
        return Err(EngineError::InvalidTransaction { message: "Balance out of range".to_owned() });
    }

    account.available = Money { minor: na as i64 };
    account.held = Money { minor: nh as i64 };

    Ok(())
}

/// Reverse the disputed deposit: remove its amount, clamped to what is still
/// held, from both held and total, and lock the account. Available is
/// unchanged.
///
/// Exact behaviour: fails if `tx` carries no amount; with `c` the clamped
/// amount, fails if either new count leaves the representable range;
/// otherwise removes `c` from held and total and sets `locked`. A failure
/// leaves the account unchanged.
pub fn chargeback(account: &mut Account, tx: &Transaction) -> (r: Result<(), EngineError>)
    ensures
        ({
            let c = min_int(tx.amount->0@, old(account).held@);
            let nh = old(account).held@ - c;
            let nt = old(account).total@ - c;
            if tx.amount is None {
                &&& r matches Err(e) && invalid_with(e, "Transaction has no amount"@)
                &&& *final(account) == *old(account)
            } else if !(i64::MIN <= nh <= i64::MAX) || !(i64::MIN <= nt <= i64::MAX) {
                &&& r matches Err(e) && invalid_with(e, "Balance out of range"@)
                &&& *final(account) == *old(account)
            } else {
                &&& r is Ok
                &&& *final(account) == (Account {
                    held: Money { minor: nh as i64 },
                    total: Money { minor: nt as i64 },
                    locked: true,
                    ..*old(account)
                })
            }
        }),
{
    let amount = match tx.amount {
        Some(amount) => amount,
        None => {
            return Err(EngineError::InvalidTransaction {
                message: "Transaction has no amount".to_owned(),
            });
        },
    };

    let clamped: i64 = if account.held.minor < amount.minor {
        account.held.minor
    } else {
        amount.minor
    };

    let nh: i128 = account.held.minor as i128 - clamped as i128;
    let nt: i128 = account.total.minor as i128 - clamped as i128;

    if nh < i64::MIN as i128 || nh > i64::MAX as i128 || nt < i64::MIN as i128 || nt > i64::MAX
        as i128 {
        return Err(EngineError::InvalidTransaction { message: "Balance out of range".to_owned() });
    }

    account.held = Money { minor: nh as i64 };
    account.total = Money { minor: nt as i64 };
    account.locked = true;

    Ok(())
}

} // verus!
