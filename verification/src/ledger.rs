//! The store of amount-bearing transactions.

use vstd::prelude::*;
use std::collections::BTreeMap;
use crate::amount::Amount;
use crate::error::AccountingError;
use crate::transaction::{ClientID, TxID};

verus! {

broadcast use vstd::std_specs::btree::group_btree_axioms;

/// What the ledger keeps of a deposit or withdrawal.
#[derive(Debug, Clone, Copy, PartialEq, Eq, Structural)]
pub struct LedgerEntry {
    pub client_id: ClientID,
    pub tx_id: TxID,
    pub amount: Amount,
    pub under_dispute: bool,
}

impl LedgerEntry {
    /// The same entry with its dispute flag set to `under_dispute`.
    pub open spec fn with_dispute(self, under_dispute: bool) -> LedgerEntry {
        LedgerEntry { under_dispute, ..self }
    }
}

/// The deposits and withdrawals seen so far, by transaction id. Entries are
/// added, never replaced or removed; only their dispute flag changes. The
/// view of a ledger is the map from the ids it holds to their entries.
pub struct Ledger {
    entries: BTreeMap<TxID, LedgerEntry>,
}

impl View for Ledger {
    type V = Map<TxID, LedgerEntry>;

    closed spec fn view(&self) -> Map<TxID, LedgerEntry> {
        self.entries@
    }
}

impl Ledger {
    /// The empty ledger.
    pub fn new() -> (r: Ledger)
        ensures
            r@ == Map::<TxID, LedgerEntry>::empty(),
    {
        Ledger { entries: BTreeMap::new() }
    }

    /// Files `entry` under `tx_id` unless the ledger holds that id already:
    /// the first writer wins.
    pub fn record_if_absent(&mut self, tx_id: TxID, entry: LedgerEntry) -> (r: Result<
        (),
        AccountingError,
    >)
        ensures
            old(self)@.contains_key(tx_id) ==> r == Err::<(), AccountingError>(
                AccountingError::DuplicateTransaction,
            ) && final(self)@ == old(self)@,
            !old(self)@.contains_key(tx_id) ==> r == Ok::<(), AccountingError>(())
                && final(self)@ == old(self)@.insert(tx_id, entry),
    {
        if self.entries.contains_key(&tx_id) {
            return Err(AccountingError::DuplicateTransaction);
        }
        self.entries.insert(tx_id, entry);
        Ok(())
    }

    /// Whether the ledger holds an entry for `tx_id`.
    pub fn contains(&self, tx_id: TxID) -> (r: bool)
        ensures
            r == self@.contains_key(tx_id),
    {
        self.entries.contains_key(&tx_id)
    }

    /// The entry filed under `tx_id`, if there is one.
    pub fn get(&self, tx_id: TxID) -> (r: Option<LedgerEntry>)
        ensures
            r == (if self@.contains_key(tx_id) {
                Some(self@[tx_id])
            } else {
                None
            }),
    {
        match self.entries.get(&tx_id) {
            Some(entry) => Some(*entry),
            None => None,
        }
    }

    /// Sets the dispute flag of the entry filed under `tx_id`; a ledger
    /// without such an entry stays as it is.
    pub fn set_under_dispute(&mut self, tx_id: TxID, under_dispute: bool)
        ensures
            final(self)@ == (if old(self)@.contains_key(tx_id) {
                old(self)@.insert(tx_id, old(self)@[tx_id].with_dispute(under_dispute))
            } else {
                old(self)@
            }),
    {
        let found = self.get(tx_id);
        if let Some(entry) = found {
            self.entries.insert(tx_id, LedgerEntry { under_dispute, ..entry });
        }
    }
}

} // verus!
