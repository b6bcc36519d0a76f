//! The mathematical model of the engine: a state and the transition that one
//! event causes.

use vstd::prelude::*;
use crate::account::AccountView;
use crate::error::AccountingError;
use crate::ledger::LedgerEntry;
use crate::transaction::{ClientID, Transaction, TxID};

verus! {

/// The accounts by client and the ledger entries by transaction id.
pub ghost struct ProcessorView {
    pub accounts: Map<ClientID, AccountView>,
    pub ledger: Map<TxID, LedgerEntry>,
}

impl ProcessorView {
    /// The state before any event: no account, no entry.
    pub open spec fn empty() -> ProcessorView {
        ProcessorView { accounts: Map::empty(), ledger: Map::empty() }
    }

    /// Every account obeys the account invariant and is filed under its own
    /// client; every entry is filed under its own id and has a positive amount.
    pub open spec fn wf(self) -> bool {
        &&& forall|c: ClientID| #[trigger]
            self.accounts.contains_key(c) ==> self.accounts[c].wf() && self.accounts[c].client
                == c
        &&& forall|t: TxID| #[trigger]
            self.ledger.contains_key(t) ==> self.ledger[t].tx_id == t && self.ledger[t].amount@
                > 0
    }

    /// The state in which `client` has an account: a fresh one where there
    /// was none.
    pub open spec fn touch(self, client: ClientID) -> ProcessorView {
        if self.accounts.contains_key(client) {
            self
        } else {
            ProcessorView { accounts: self.accounts.insert(client, AccountView::fresh(client)), ..self }
        }
    }

    /// The state in which the account of `client` is `account`.
    pub open spec fn with_account(self, client: ClientID, account: AccountView) -> ProcessorView {
        ProcessorView { accounts: self.accounts.insert(client, account), ..self }
    }

    /// The state in which the ledger files `entry` under its id.
    pub open spec fn with_entry(self, entry: LedgerEntry) -> ProcessorView {
        ProcessorView { ledger: self.ledger.insert(entry.tx_id, entry), ..self }
    }

    /// A deposit into an unlocked account. It needs a positive amount, a
    /// transaction id that the ledger does not hold, and a total that stays
    /// in the range of the amount type.
    pub open spec fn apply_deposit(self, client: ClientID, tx: TxID, amount: Option<crate::amount::Amount>) -> (
        ProcessorView,
        Result<(), AccountingError>,
    ) {
        let account = self.accounts[client];
        match amount {
            Some(a) if a@ > 0 => {
                if self.ledger.contains_key(tx) {
                    (self, Err(AccountingError::DuplicateTransaction))
                } else if account.total + a@ > i128::MAX {
                    (self, Err(AccountingError::InvalidAmount))
                } else {
                    let entry = LedgerEntry {
                        client_id: client,
                        tx_id: tx,
                        amount: a,
                        under_dispute: false,
                    };
                    (self.with_account(client, account.deposit(a@)).with_entry(entry), Ok(()))
                }
            },
            _ => (self, Err(AccountingError::InvalidAmount)),
        }
    }

    /// A withdrawal from an unlocked account.
    pub open spec fn apply_withdrawal(self, client: ClientID, tx: TxID, amount: Option<crate::amount::Amount>) -> (
        ProcessorView,
        Result<(), AccountingError>,
    ) {
        let account = self.accounts[client];
        match amount {
            Some(a) if a@ > 0 => {
                if account.available < a@ {
                    (self, Err(AccountingError::InsufficientFunds))
                } else if self.ledger.contains_key(tx) {
                    (self, Err(AccountingError::DuplicateTransaction))
                } else {
                    let entry = LedgerEntry {
                        client_id: client,
                        tx_id: tx,
                        amount: a,
                        under_dispute: false,
                    };
                    (self.with_account(client, account.withdraw(a@)).with_entry(entry), Ok(()))
                }
            },
            _ => (self, Err(AccountingError::InvalidAmount)),
        }
    }

    /// A dispute raised for an unlocked account. An unknown transaction, or
    /// one already under dispute, changes nothing and is no failure.
    pub open spec fn apply_dispute(self, client: ClientID, tx: TxID) -> (
        ProcessorView,
        Result<(), AccountingError>,
    ) {
        let account = self.accounts[client];
        if self.ledger.contains_key(tx) && !self.ledger[tx].under_dispute {
            let entry = self.ledger[tx];
            if account.available >= entry.amount@ {
                (
                    self.with_account(client, account.dispute(entry.amount@)).with_entry(
                        entry.with_dispute(true),
                    ),
                    Ok(()),
                )
            } else {
                (self, Err(AccountingError::InsufficientFundsForDispute))
            }
        } else {
            (self, Ok(()))
        }
    }

    /// A resolve for an unlocked account. An unknown transaction, or one
    /// that is not under dispute, changes nothing and is no failure.
    pub open spec fn apply_resolve(self, client: ClientID, tx: TxID) -> (
        ProcessorView,
        Result<(), AccountingError>,
    ) {
        let account = self.accounts[client];
        if self.ledger.contains_key(tx) && self.ledger[tx].under_dispute {
            let entry = self.ledger[tx];
            if account.held >= entry.amount@ {
                (
                    self.with_account(client, account.resolve(entry.amount@)).with_entry(
                        entry.with_dispute(false),
                    ),
                    Ok(()),
                )
            } else {
                (self, Err(AccountingError::InternalInvariantViolation))
            }
        } else {
            (self, Ok(()))
        }
    }

    /// A chargeback for an unlocked account. An unknown transaction, or one
    /// that is not under dispute, changes nothing and is no failure.
    pub open spec fn apply_chargeback(self, client: ClientID, tx: TxID) -> (
        ProcessorView,
        Result<(), AccountingError>,
    ) {
        let account = self.accounts[client];
        if self.ledger.contains_key(tx) && self.ledger[tx].under_dispute {
            let entry = self.ledger[tx];
            if account.held >= entry.amount@ {
                (
                    self.with_account(client, account.chargeback(entry.amount@)).with_entry(
                        entry.with_dispute(false),
                    ),
                    Ok(()),
                )
            } else {
                (self, Err(AccountingError::InternalInvariantViolation))
            }
        } else {
            (self, Ok(()))
        }
    }

    /// The state after one event, and what the event ended in.
    ///
    /// The client of the event gets an account first. A locked account
    /// refuses every event. A failed event leaves the state as it was after
    /// that first step.
    pub open spec fn apply(self, tx: Transaction) -> (ProcessorView, Result<(), AccountingError>) {
        let data = tx.spec_data();
        let client = data.client_id;
        let s = self.touch(client);
        if s.accounts[client].locked {
            (s, Err(AccountingError::AccountLocked))
        } else {
            match tx {
                Transaction::Deposit(_) => s.apply_deposit(client, data.tx_id, data.amount),
                Transaction::Withdrawal(_) => s.apply_withdrawal(client, data.tx_id, data.amount),
                Transaction::Dispute(_) => s.apply_dispute(client, data.tx_id),
                Transaction::Resolve(_) => s.apply_resolve(client, data.tx_id),
                Transaction::Chargeback(_) => s.apply_chargeback(client, data.tx_id),
            }
        }
    }

    /// Whether the event is one that is passed over in silence: a dispute,
    /// resolve or chargeback for an unlocked account that names a
    /// transaction the ledger does not hold, or one whose dispute flag does
    /// not fit the event.
    pub open spec fn ignores(self, tx: Transaction) -> bool {
        let data = tx.spec_data();
        let s = self.touch(data.client_id);
        let known = self.ledger.contains_key(data.tx_id);
        &&& !s.accounts[data.client_id].locked
        &&& match tx {
            Transaction::Dispute(_) => !known || self.ledger[data.tx_id].under_dispute,
            Transaction::Resolve(_) => !known || !self.ledger[data.tx_id].under_dispute,
            Transaction::Chargeback(_) => !known || !self.ledger[data.tx_id].under_dispute,
            _ => false,
        }
    }

    /// The state after one event.
    pub open spec fn step(self, tx: Transaction) -> ProcessorView {
        self.apply(tx).0
    }

    /// What one event ends in.
    pub open spec fn outcome(self, tx: Transaction) -> Result<(), AccountingError> {
        self.apply(tx).1
    }

    /// The state after a sequence of events, each applied in turn whether
    /// or not the ones before it failed.
    pub open spec fn run(self, txs: Seq<Transaction>) -> ProcessorView
        decreases txs.len(),
    {
        if txs.len() == 0 {
            self
        } else {
            self.run(txs.drop_last()).step(txs.last())
        }
    }
}

} // verus!
