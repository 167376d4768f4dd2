//! Ledger-wide laws, proved once over the model in `crate::model` and
//! inherited by the executable engine through `apply_transaction`'s
//! contract (`final(engine)@ == old(engine)@.step(tx)`).

use vstd::prelude::*;

use crate::account::Account;
use crate::model::{LedgerState, Rejection};
use crate::transaction::Transaction;

verus! {

/// Every step from a well-formed state leaves the ledger well-formed: in
/// particular, after any transaction every account still satisfies
/// `total == available + held` with non-negative available and held funds.
pub proof fn lemma_step_preserves_wf(s: LedgerState, tx: Transaction)
    requires
        s.wf(),
    ensures
        s.step(tx).wf(),
{
    let s2 = s.step(tx);
    assert forall|client: u16| #[trigger] s2.accounts.contains_key(client) implies s2.account_ok(
        client,
    ) by {
        if client != tx.client {
            assert(s.accounts.contains_key(client));
            assert(s.account_ok(client));
        } else {
            if s.accounts.contains_key(tx.client) {
                assert(s.account_ok(tx.client));
            }
        }
    }
    assert forall|id: u32| #[trigger] s2.history.contains_key(id) implies s2.entry_ok(id) by {
        if s.history.contains_key(id) {
            assert(s.entry_ok(id));
        }
    }
}

/// The ledger only grows: no step deletes an account, and no step removes
/// or rewrites a stored deposit or withdrawal.
pub proof fn lemma_ledger_only_grows(s: LedgerState, tx: Transaction)
    ensures
        forall|c: u16| #[trigger] s.accounts.contains_key(c) ==> s.step(tx).accounts.contains_key(c),
        forall|id: u32| #[trigger]
            s.history.contains_key(id) ==> s.step(tx).history.contains_key(id) && s.step(
                tx,
            ).history[id] == s.history[id],
{
}

/// Once an account is locked, every transaction for that client is refused
/// with the locked rejection, and neither the account's balances nor the
/// history change.
pub proof fn lemma_locked_account_rejects(s: LedgerState, tx: Transaction)
    requires
        s.accounts.contains_key(tx.client),
        s.accounts[tx.client].locked,
    ensures
        s.rejection(tx) == Some(Rejection::Locked(tx.client)),
        s.step(tx).accounts == s.accounts,
        s.step(tx).history == s.history,
{
    assert(s.step(tx).accounts =~= s.accounts);
}

/// A deposit or withdrawal reusing the id of an already applied deposit or
/// withdrawal is refused as a duplicate: the first applies, the second
/// changes neither the history nor any existing account (at most the second
/// client's account is lazily created).
pub proof fn lemma_duplicate_transaction_rejected(
    s: LedgerState,
    tx1: Transaction,
    tx2: Transaction,
)
    requires
        tx1.kind.carries_amount(),
        tx2.kind.carries_amount(),
        tx2.tx_id == tx1.tx_id,
        s.rejection(tx1) is None,
        !s.step(tx1).account_or_fresh(tx2.client).locked,
    ensures
        s.step(tx1).rejection(tx2) == Some(Rejection::Duplicate(tx2.tx_id)),
        s.step(tx1).step(tx2).history == s.step(tx1).history,
        forall|c: u16| #[trigger]
            s.step(tx1).accounts.contains_key(c) ==> s.step(tx1).step(tx2).accounts[c] == s.step(
                tx1,
            ).accounts[c],
{
}

/// A dispute-family transaction referencing an id that no stored deposit or
/// withdrawal carries is refused as unknown and mutates nothing: the history
/// and every existing account are unchanged, and at most the client's
/// account is lazily created with zero balances.
pub proof fn lemma_unknown_reference_rejected(s: LedgerState, tx: Transaction)
    requires
        !tx.kind.carries_amount(),
        !s.history.contains_key(tx.tx_id),
        !s.account_or_fresh(tx.client).locked,
    ensures
        s.rejection(tx) == Some(Rejection::Unknown(tx.tx_id)),
        s.step(tx).history == s.history,
        forall|c: u16| #[trigger]
            s.accounts.contains_key(c) ==> s.step(tx).accounts[c] == s.accounts[c],
        s.step(tx).accounts.contains_key(tx.client),
        !s.accounts.contains_key(tx.client) ==> s.step(tx).accounts[tx.client] == Account::fresh(
            tx.client,
        ),
{
}

/// A dispute-family transaction whose client differs from the referenced
/// transaction's client is refused, reporting the two clients, and mutates
/// nothing beyond the lazy account creation.
pub proof fn lemma_foreign_reference_rejected(s: LedgerState, tx: Transaction)
    requires
        !tx.kind.carries_amount(),
        !s.account_or_fresh(tx.client).locked,
        s.history.contains_key(tx.tx_id),
        s.history[tx.tx_id].client != tx.client,
    ensures
        s.rejection(tx) == Some(Rejection::ForeignClient(s.history[tx.tx_id].client, tx.client)),
        s.step(tx).history == s.history,
        forall|c: u16| #[trigger]
            s.accounts.contains_key(c) ==> s.step(tx).accounts[c] == s.accounts[c],
{
}

/// A dispute-family transaction referencing a stored withdrawal is always
/// refused (only deposits may be disputed) and mutates nothing beyond the
/// lazy account creation.
pub proof fn lemma_withdrawal_not_disputable(s: LedgerState, tx: Transaction)
    requires
        !tx.kind.carries_amount(),
        !s.account_or_fresh(tx.client).locked,
        s.history.contains_key(tx.tx_id),
        s.history[tx.tx_id].client == tx.client,
        s.history[tx.tx_id].kind is Withdrawal,
    ensures
        s.rejection(tx) == Some(Rejection::DisputedWithdrawal),
        s.step(tx).history == s.history,
        forall|c: u16| #[trigger]
            s.accounts.contains_key(c) ==> s.step(tx).accounts[c] == s.accounts[c],
{
}

/// Disputing a stored deposit of amount `A` when the account's available
/// balance has dropped below `A` holds exactly the remaining available
/// balance, drives available to exactly zero (never below), and leaves the
/// total unchanged.
pub proof fn lemma_dispute_clamps_to_available(s: LedgerState, tx: Transaction)
    requires
        s.wf(),
        tx.kind is Dispute,
        !s.account_or_fresh(tx.client).locked,
        s.history.contains_key(tx.tx_id),
        s.history[tx.tx_id].client == tx.client,
        s.history[tx.tx_id].kind is Deposit,
        s.account_or_fresh(tx.client).available@ < s.history[tx.tx_id].amount->0@,
    ensures
        s.rejection(tx) is None,
        ({
            let a = s.account_or_fresh(tx.client);
            let after = s.step(tx).accounts[tx.client];
            &&& after.available@ == 0
            &&& after.held@ == a.held@ + a.available@
            &&& after.total == a.total
        }),
{
    assert(s.history.contains_key(tx.tx_id));
    assert(s.entry_ok(tx.tx_id));
    if s.accounts.contains_key(tx.client) {
        assert(s.account_ok(tx.client));
    }
}

} // verus!
