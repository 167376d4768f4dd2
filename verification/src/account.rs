//! One client's balance record: available, held and total funds plus the
//! locked flag. `total` is meant to equal `available + held` at all times;
//! `is_valid` checks exactly that.

use vstd::prelude::*;

use crate::money::Money;

verus! {

/// A client account. Created with all balances zero and unlocked; mutated
/// only by the ledger's balance rules.
#[derive(Clone, Copy, Debug, PartialEq, Eq, Structural)]
pub struct Account {
    pub client: u16,
    pub available: Money,
    pub held: Money,
    pub total: Money,
    pub locked: bool,
}

impl Account {
    /// The balance sheet is consistent: total equals available plus held.
    pub open spec fn balanced(&self) -> bool {
        self.total@ == self.available@ + self.held@
    }

    /// A fresh account for `client`: all balances zero, not locked.
    pub open spec fn fresh(client: u16) -> Account {
        Account {
            client,
            available: Money { minor: 0 },
            held: Money { minor: 0 },
            total: Money { minor: 0 },
            locked: false,
        }
    }

    /// Create the account for `client` with zero balances, unlocked.
    pub fn new(client: u16) -> (r: Account)
        ensures
            r == Account::fresh(client),
    {
        Account {
            client,
            available: Money::zero(),
            held: Money::zero(),
            total: Money::zero(),
            locked: false,
        }
    }

    /// True iff total equals available plus held.
    pub fn is_valid(&self) -> (r: bool)
        ensures
            r == self.balanced(),
    {
        let expected_total: i128 = self.available.minor as i128 + self.held.minor as i128;
        self.total.minor as i128 == expected_total
    }

    /// True iff the account still accepts transactions (it is not locked).
    pub fn is_available(&self) -> (r: bool)
        ensures
            r == !self.locked,
    {
        !self.locked
    }
}

} // verus!
