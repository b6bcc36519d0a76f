//! What holds of the engine whatever the events are, proved of the model
//! that every operation of the processor is proved against.

use vstd::prelude::*;
use crate::account::AccountView;
use crate::error::AccountingError;
use crate::model::ProcessorView;
use crate::transaction::{ClientID, Transaction, TxID};

verus! {

/// A deposit of a positive amount keeps the account invariant, adds the
/// amount to the available funds and the total, and leaves the rest.
pub proof fn law_account_deposit(v: AccountView, amount: int)
    requires
        v.wf(),
        amount > 0,
    ensures
        v.deposit(amount).wf(),
        v.deposit(amount).available == v.available + amount,
        v.deposit(amount).total == v.total + amount,
        v.deposit(amount).held == v.held,
        v.deposit(amount).locked == v.locked,
        v.deposit(amount).client == v.client,
{
}

/// A withdrawal that is granted keeps the account invariant, takes the
/// amount from the available funds and the total, and leaves the rest.
pub proof fn law_account_withdraw(v: AccountView, amount: int)
    requires
        v.wf(),
        v.can_withdraw(amount),
    ensures
        v.withdraw(amount).wf(),
        v.withdraw(amount).available == v.available - amount,
        v.withdraw(amount).total == v.total - amount,
        v.withdraw(amount).held == v.held,
        v.withdraw(amount).locked == v.locked,
        v.withdraw(amount).client == v.client,
{
}

/// A dispute leaves the total, the lock and the client of any account as
/// they were and moves the amount from available to held funds; where no
/// more than the available funds is disputed, the invariant is kept.
pub proof fn law_account_dispute(v: AccountView, amount: int)
    ensures
        v.dispute(amount).total == v.total,
        v.dispute(amount).locked == v.locked,
        v.dispute(amount).client == v.client,
        v.dispute(amount).available + v.dispute(amount).held == v.available + v.held,
        v.dispute(amount).held == v.held + amount,
        v.wf() && 0 <= amount <= v.available ==> v.dispute(amount).wf(),
{
}

/// On any account, a dispute followed by the resolve of the same amount
/// gives back the account as it was.
pub proof fn law_account_dispute_resolve(v: AccountView, amount: int)
    ensures
        v.dispute(amount).resolve(amount) == v,
{
}

/// A resolve leaves the total, the lock and the client of any account as
/// they were and moves the amount from held to available funds; where no
/// more than the held funds is resolved, the invariant is kept.
pub proof fn law_account_resolve(v: AccountView, amount: int)
    ensures
        v.resolve(amount).total == v.total,
        v.resolve(amount).locked == v.locked,
        v.resolve(amount).client == v.client,
        v.resolve(amount).available == v.available + amount,
        v.resolve(amount).held == v.held - amount,
        v.wf() && 0 <= amount <= v.held ==> v.resolve(amount).wf(),
{
}

/// A chargeback locks any account, takes the amount from its held funds
/// and its total, and leaves available funds and client as they were;
/// where no more than the held funds is charged back, the invariant is kept.
pub proof fn law_account_chargeback(v: AccountView, amount: int)
    ensures
        v.chargeback(amount).locked,
        v.chargeback(amount).held == v.held - amount,
        v.chargeback(amount).total == v.total - amount,
        v.chargeback(amount).available == v.available,
        v.chargeback(amount).client == v.client,
        v.wf() && 0 <= amount <= v.held ==> v.chargeback(amount).wf(),
{
}

/// One event keeps the invariant of the state: after it, as before it, no
/// balance of any account is negative and every total is the sum of
/// available and held funds.
pub proof fn law_step_keeps_invariant(s: ProcessorView, tx: Transaction)
    requires
        s.wf(),
    ensures
        s.step(tx).wf(),
{
    let client = tx.spec_data().client_id;
    let t = s.touch(client);
    assert(t.wf());
    assert(t.accounts.contains_key(client));
}

/// Any sequence of events keeps the invariant of the state.
pub proof fn law_run_keeps_invariant(s: ProcessorView, txs: Seq<Transaction>)
    requires
        s.wf(),
    ensures
        s.run(txs).wf(),
    decreases txs.len(),
{
    if txs.len() > 0 {
        law_run_keeps_invariant(s, txs.drop_last());
        law_step_keeps_invariant(s.run(txs.drop_last()), txs.last());
    }
}

/// At every point of every stream, each account has no negative balance
/// and a total that is the sum of its available and its held funds.
pub proof fn law_balances_consistent(txs: Seq<Transaction>, client: ClientID)
    requires
        ProcessorView::empty().run(txs).accounts.contains_key(client),
    ensures
        ({
            let account = ProcessorView::empty().run(txs).accounts[client];
            &&& account.available >= 0
            &&& account.held >= 0
            &&& account.total == account.available + account.held
        }),
{
    law_run_keeps_invariant(ProcessorView::empty(), txs);
}

/// A deposit or withdrawal that is sent a second time is rejected and
/// changes nothing; after a deposit that went through, the reason given is
/// that its transaction id is taken.
pub proof fn law_repeated_transaction_rejected(s: ProcessorView, tx: Transaction)
    requires
        s.wf(),
        tx is Deposit || tx is Withdrawal,
    ensures
        s.step(tx).outcome(tx) is Err,
        s.step(tx).step(tx) == s.step(tx),
        tx is Deposit && s.outcome(tx) is Ok ==> s.step(tx).outcome(tx) == Err::<
            (),
            AccountingError,
        >(AccountingError::DuplicateTransaction),
{
    let client = tx.spec_data().client_id;
    let t = s.touch(client);
    assert(t.accounts.contains_key(client));
    let s1 = s.step(tx);
    assert(s1.accounts.contains_key(client));
    assert(s1.touch(client) == s1);
    if s.outcome(tx) is Ok {
        assert(s1.ledger.contains_key(tx.spec_data().tx_id));
    }
}

/// A dispute that takes effect, followed by the resolve of the same
/// transaction for the same client, leaves the state as it was before the
/// dispute; the account's total is the same before, between and after.
pub proof fn law_dispute_resolve_round_trip(
    s: ProcessorView,
    dispute: Transaction,
    resolve: Transaction,
)
    requires
        s.wf(),
        dispute is Dispute,
        resolve is Resolve,
        dispute.spec_data().client_id == resolve.spec_data().client_id,
        dispute.spec_data().tx_id == resolve.spec_data().tx_id,
        s.outcome(dispute) is Ok,
        s.ledger.contains_key(dispute.spec_data().tx_id),
        !s.ledger[dispute.spec_data().tx_id].under_dispute,
    ensures
        ({
            let client = dispute.spec_data().client_id;
            let before = s.touch(client);
            let between = s.step(dispute);
            let after = between.step(resolve);
            &&& between.outcome(resolve) is Ok
            &&& after == before
            &&& between.accounts[client].total == before.accounts[client].total
            &&& between.accounts[client].held == before.accounts[client].held
                + s.ledger[dispute.spec_data().tx_id].amount@
        }),
{
    let client = dispute.spec_data().client_id;
    let tx_id = dispute.spec_data().tx_id;
    let before = s.touch(client);
    assert(before.accounts.contains_key(client));
    let between = s.step(dispute);
    assert(between.accounts.contains_key(client));
    assert(between.touch(client) == between);
    assert(between.ledger.contains_key(tx_id));
    let after = between.step(resolve);
    assert(after.accounts =~= before.accounts);
    assert(after.ledger =~= before.ledger);
}

/// A chargeback that takes effect locks the account and takes the disputed
/// amount out of its held funds and its total.
pub proof fn law_chargeback_locks(s: ProcessorView, chargeback: Transaction)
    requires
        s.wf(),
        chargeback is Chargeback,
        s.outcome(chargeback) is Ok,
        s.ledger.contains_key(chargeback.spec_data().tx_id),
        s.ledger[chargeback.spec_data().tx_id].under_dispute,
    ensures
        ({
            let client = chargeback.spec_data().client_id;
            let amount = s.ledger[chargeback.spec_data().tx_id].amount@;
            let before = s.touch(client).accounts[client];
            let after = s.step(chargeback).accounts[client];
            &&& after.locked
            &&& after.available == before.available
            &&& after.held == before.held - amount
            &&& after.total == before.total - amount
        }),
{
    let client = chargeback.spec_data().client_id;
    assert(s.touch(client).accounts.contains_key(client));
}

/// An event changes no account but that of its own client, and removes none.
pub proof fn law_step_touches_one_account(s: ProcessorView, tx: Transaction, client: ClientID)
    requires
        s.accounts.contains_key(client),
        tx.spec_data().client_id != client,
    ensures
        s.step(tx).accounts.contains_key(client),
        s.step(tx).accounts[client] == s.accounts[client],
{
}

/// A locked account refuses every event of its client, and no event of any
/// kind, for any client, changes it.
pub proof fn law_locked_account_refuses(s: ProcessorView, tx: Transaction, client: ClientID)
    requires
        s.accounts.contains_key(client),
        s.accounts[client].locked,
    ensures
        s.step(tx).accounts.contains_key(client),
        s.step(tx).accounts[client] == s.accounts[client],
        tx.spec_data().client_id == client ==> s.step(tx) == s && s.outcome(tx) == Err::<
            (),
            AccountingError,
        >(AccountingError::AccountLocked),
{
}

/// Once an account is locked, no sequence of events changes it.
pub proof fn law_locked_account_is_final(s: ProcessorView, txs: Seq<Transaction>, client: ClientID)
    requires
        s.accounts.contains_key(client),
        s.accounts[client].locked,
    ensures
        s.run(txs).accounts.contains_key(client),
        s.run(txs).accounts[client] == s.accounts[client],
    decreases txs.len(),
{
    if txs.len() > 0 {
        law_locked_account_is_final(s, txs.drop_last(), client);
        law_locked_account_refuses(s.run(txs.drop_last()), txs.last(), client);
    }
}

/// An event that is passed over in silence is no failure and changes no
/// balance and no entry: all it leaves behind is the account of its client,
/// fresh if there was none.
pub proof fn law_ignored_event_changes_nothing(s: ProcessorView, tx: Transaction)
    requires
        s.ignores(tx),
    ensures
        s.outcome(tx) == Ok::<(), AccountingError>(()),
        s.step(tx) == s.touch(tx.spec_data().client_id),
        s.accounts.contains_key(tx.spec_data().client_id) ==> s.step(tx) == s,
{
}

/// No event removes an account.
pub proof fn law_accounts_stay(s: ProcessorView, tx: Transaction, client: ClientID)
    requires
        s.accounts.contains_key(client),
    ensures
        s.step(tx).accounts.contains_key(client),
        s.step(tx).accounts[client].client == s.accounts[client].client,
{
}

/// No event removes a ledger entry or changes its client, its id or its
/// amount: once filed, only the dispute flag of an entry changes.
pub proof fn law_ledger_entries_stay(s: ProcessorView, tx: Transaction, tx_id: TxID)
    requires
        s.wf(),
        s.ledger.contains_key(tx_id),
    ensures
        s.step(tx).ledger.contains_key(tx_id),
        s.step(tx).ledger[tx_id].with_dispute(false) == s.ledger[tx_id].with_dispute(false),
{
    let client = tx.spec_data().client_id;
    assert(s.touch(client).accounts.contains_key(client));
}

/// The dispute flag of an entry changes only by an event that names the
/// entry and succeeds.
pub proof fn law_dispute_flag_changes_by_name(s: ProcessorView, tx: Transaction, tx_id: TxID)
    requires
        s.wf(),
        s.ledger.contains_key(tx_id),
        tx.spec_data().tx_id != tx_id || s.outcome(tx) is Err,
    ensures
        s.step(tx).ledger[tx_id] == s.ledger[tx_id],
{
    let client = tx.spec_data().client_id;
    assert(s.touch(client).accounts.contains_key(client));
}

/// A failed event leaves every balance and every entry as it was: all it
/// leaves behind is the account of its client, fresh if there was none.
pub proof fn law_failure_changes_nothing(s: ProcessorView, tx: Transaction)
    requires
        s.outcome(tx) is Err,
    ensures
        s.step(tx) == s.touch(tx.spec_data().client_id),
{
}

/// A dispute, resolve or chargeback that names a transaction the ledger
/// does not hold is no failure and changes no balance and no entry: all it
/// leaves behind is the account of its client, fresh if there was none.
pub proof fn law_unknown_transaction_tolerated(s: ProcessorView, tx: Transaction)
    requires
        tx is Dispute || tx is Resolve || tx is Chargeback,
        !s.ledger.contains_key(tx.spec_data().tx_id),
        !s.touch(tx.spec_data().client_id).accounts[tx.spec_data().client_id].locked,
    ensures
        s.outcome(tx) == Ok::<(), AccountingError>(()),
        s.step(tx) == s.touch(tx.spec_data().client_id),
        s.step(tx).ledger == s.ledger,
        s.accounts.contains_key(tx.spec_data().client_id) ==> s.step(tx) == s,
{
}

} // verus!
