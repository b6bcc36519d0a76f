//! The engine: accounts and ledger, and the events applied to them.

use vstd::prelude::*;
use std::collections::BTreeMap;
use crate::account::{Account, AccountView};
use crate::amount::Amount;
use crate::error::AccountingError;
use crate::ledger::{Ledger, LedgerEntry};
use crate::model::ProcessorView;
use crate::transaction::{ClientID, Transaction, TxID};

verus! {

broadcast use vstd::std_specs::btree::group_btree_axioms;

/// The views of the accounts of a map, under the same keys.
pub open spec fn accounts_view(accounts: Map<ClientID, Account>) -> Map<ClientID, AccountView> {
    Map::new(|c: ClientID| accounts.contains_key(c), |c: ClientID| accounts[c]@)
}

proof fn lemma_accounts_view_insert(accounts: Map<ClientID, Account>, client: ClientID, account: Account)
    ensures
        accounts_view(accounts.insert(client, account)) == accounts_view(accounts).insert(
            client,
            account@,
        ),
{
    assert(accounts_view(accounts.insert(client, account)) =~= accounts_view(accounts).insert(
        client,
        account@,
    ));
}

/// Applies events, in the order given, to the accounts and the ledger it owns.
pub struct TransactionProcessor {
    accounts: BTreeMap<ClientID, Account>,
    ledger: Ledger,
}

impl View for TransactionProcessor {
    type V = ProcessorView;

    closed spec fn view(&self) -> ProcessorView {
        ProcessorView { accounts: accounts_view(self.accounts@), ledger: self.ledger@ }
    }
}

impl TransactionProcessor {
    /// The state obeys the invariant of the model. This holds of every
    /// processor at all times: the functions that look at one say so.
    pub open spec fn wf(&self) -> bool {
        self@.wf()
    }

    /// The invariant that every processor is held to.
    #[verifier::type_invariant]
    spec fn inv(self) -> bool {
        (ProcessorView { accounts: accounts_view(self.accounts@), ledger: self.ledger@ }).wf()
    }

    /// A processor without accounts or ledger entries.
    pub fn new() -> (r: TransactionProcessor)
        ensures
            r@ == ProcessorView::empty(),
            r.wf(),
    {
        let r = TransactionProcessor { accounts: BTreeMap::new(), ledger: Ledger::new() };
        assert(r@.accounts =~= Map::<ClientID, AccountView>::empty());
        r
    }

    /// The account of `client`, made fresh and stored where there was none.
    fn fetch_or_create(&mut self, client: ClientID) -> (account: Account)
        ensures
            final(self)@ == old(self)@.touch(client),
            final(self).wf(),
            account@ == final(self)@.accounts[client],
            account.wf(),
            account@.client == client,
    {
        proof {
            use_type_invariant(&*self);
        }
        let found = match self.accounts.get(&client) {
            Some(a) => Some(*a),
            None => None,
        };
        match found {
            Some(account) => {
                assert(self@.accounts.contains_key(client));
                account
            },
            None => {
                let account = Account::new(client, Amount::zero(), Amount::zero(), Amount::zero());
                self.store(client, account);
                account
            },
        }
    }

    /// Stores `account` under `client`.
    fn store(&mut self, client: ClientID, account: Account)
        requires
            account.wf(),
            account@.client == client,
        ensures
            final(self)@ == old(self)@.with_account(client, account@),
            final(self).wf(),
    {
        proof {
            use_type_invariant(&*self);
            lemma_accounts_view_insert(self.accounts@, client, account);
        }
        let mut accounts: BTreeMap<ClientID, Account> = BTreeMap::new();
        assert(accounts_view(accounts@) =~= Map::<ClientID, AccountView>::empty());
        assert(self@.ledger == self.ledger@);
        std::mem::swap(&mut accounts, &mut self.accounts);
        accounts.insert(client, account);
        assert(accounts_view(accounts@) == old(self)@.accounts.insert(client, account@));
        self.accounts = accounts;
    }

    /// Files `entry` in the ledger, which holds no entry of that id yet.
    fn file(&mut self, entry: LedgerEntry)
        requires
            entry.amount@ > 0,
            !old(self)@.ledger.contains_key(entry.tx_id),
        ensures
            final(self)@ == old(self)@.with_entry(entry),
            final(self).wf(),
    {
        proof {
            use_type_invariant(&*self);
        }
        let mut ledger = Ledger::new();
        assert(self@.accounts == accounts_view(self.accounts@));
        std::mem::swap(&mut ledger, &mut self.ledger);
        let _ = ledger.record_if_absent(entry.tx_id, entry);
        self.ledger = ledger;
    }

    /// Sets the dispute flag of the entry that the ledger holds for `tx_id`.
    fn flag(&mut self, tx_id: TxID, under_dispute: bool)
        requires
            old(self)@.ledger.contains_key(tx_id),
        ensures
            final(self)@ == old(self)@.with_entry(
                old(self)@.ledger[tx_id].with_dispute(under_dispute),
            ),
            final(self).wf(),
    {
        proof {
            use_type_invariant(&*self);
        }
        let mut ledger = Ledger::new();
        assert(self@.accounts == accounts_view(self.accounts@));
        std::mem::swap(&mut ledger, &mut self.ledger);
        ledger.set_under_dispute(tx_id, under_dispute);
        self.ledger = ledger;
    }

    /// Applies one event.
    ///
    /// The client of the event gets an account if it had none. Then the
    /// event is refused if the account is locked; otherwise it changes at
    /// most that account and one ledger entry. A failure leaves both as
    /// they were.
    pub fn process_transaction(&mut self, tx: Transaction) -> (r: Result<(), AccountingError>)
        ensures
            final(self).wf(),
            final(self)@ == old(self)@.step(tx),
            r == old(self)@.outcome(tx),
    {
        let data = tx.data();
        let client = data.client_id;
        let tx_id = data.tx_id;
        let mut account = self.fetch_or_create(client);
        if account.is_locked() {
            return Err(AccountingError::AccountLocked);
        }
        match tx {
            Transaction::Deposit(_) => {
                let amount = match data.amount {
                    Some(a) => a,
                    None => {
                        return Err(AccountingError::InvalidAmount);
                    },
                };
                if !amount.is_positive() {
                    return Err(AccountingError::InvalidAmount);
                }
                if self.ledger.contains(tx_id) {
                    return Err(AccountingError::DuplicateTransaction);
                }
                if !account.can_deposit(amount) {
                    return Err(AccountingError::InvalidAmount);
                }
                account.deposit(amount);
                self.store(client, account);
                self.file(LedgerEntry { client_id: client, tx_id, amount, under_dispute: false });
                Ok(())
            },
            Transaction::Withdrawal(_) => {
                let amount = match data.amount {
                    Some(a) => a,
                    None => {
                        return Err(AccountingError::InvalidAmount);
                    },
                };
                if !amount.is_positive() {
                    return Err(AccountingError::InvalidAmount);
                }
                if account.available() < amount {
                    return Err(AccountingError::InsufficientFunds);
                }
                if self.ledger.contains(tx_id) {
                    return Err(AccountingError::DuplicateTransaction);
                }
                let _ = account.withdrawal(amount);
                self.store(client, account);
                self.file(LedgerEntry { client_id: client, tx_id, amount, under_dispute: false });
                Ok(())
            },
            Transaction::Dispute(_) => {
                let found = self.ledger.get(tx_id);
                match found {
                    Some(entry) => {
                        if entry.under_dispute {
                            return Ok(());
                        }
                        match account.dispute(entry.amount) {
                            Ok(()) => {
                                self.store(client, account);
                                self.flag(tx_id, true);
                                Ok(())
                            },
                            Err(e) => Err(e),
                        }
                    },
                    None => Ok(()),
                }
            },
            Transaction::Resolve(_) => {
                let found = self.ledger.get(tx_id);
                match found {
                    Some(entry) => {
                        if !entry.under_dispute {
                            return Ok(());
                        }
                        if account.held() < entry.amount {
                            return Err(AccountingError::InternalInvariantViolation);
                        }
                        account.resolve(entry.amount);
                        self.store(client, account);
                        self.flag(tx_id, false);
                        Ok(())
                    },
                    None => Ok(()),
                }
            },
            Transaction::Chargeback(_) => {
                let found = self.ledger.get(tx_id);
                match found {
                    Some(entry) => {
                        if !entry.under_dispute {
                            return Ok(());
                        }
                        if account.held() < entry.amount {
                            return Err(AccountingError::InternalInvariantViolation);
                        }
                        account.chargeback(entry.amount);
                        self.store(client, account);
                        self.flag(tx_id, false);
                        Ok(())
                    },
                    None => Ok(()),
                }
            },
        }
    }

    /// Whether `tx`, applied now, would be passed over in silence: it names
    /// a transaction that the ledger does not hold, or one whose dispute
    /// flag does not fit, and the account it is for is not locked. The
    /// processor stays as it is.
    pub fn ignores(&self, tx: Transaction) -> (r: bool)
        ensures
            r == self@.ignores(tx),
    {
        let data = tx.data();
        match self.account(data.client_id) {
            Some(account) => {
                if account.is_locked() {
                    return false;
                }
            },
            None => {},
        }
        let found = self.ledger.get(data.tx_id);
        match tx {
            Transaction::Dispute(_) => match found {
                Some(entry) => entry.under_dispute,
                None => true,
            },
            Transaction::Resolve(_) => match found {
                Some(entry) => !entry.under_dispute,
                None => true,
            },
            Transaction::Chargeback(_) => match found {
                Some(entry) => !entry.under_dispute,
                None => true,
            },
            _ => false,
        }
    }

    /// Applies the events of `txs` in their order. An event that fails is
    /// passed over: it stops nothing and undoes nothing.
    pub fn process(self, txs: Vec<Transaction>) -> (r: TransactionProcessor)
        ensures
            r.wf(),
            r@ == self@.run(txs@),
    {
        proof {
            use_type_invariant(&self);
        }
        let mut state = self;
        let mut i: usize = 0;
        while i < txs.len()
            invariant
                i <= txs.len(),
                state.wf(),
                state@ == self@.run(txs@.take(i as int)),
            decreases txs.len() - i,
        {
            assert(txs@.take(i + 1).drop_last() =~= txs@.take(i as int));
            let _ = state.process_transaction(txs[i]);
            i += 1;
        }
        assert(txs@.take(i as int) =~= txs@);
        state
    }

    /// The account of `client`, if an event has named that client.
    pub fn account(&self, client: ClientID) -> (r: Option<Account>)
        ensures
            self.wf(),
            match r {
                Some(a) => self@.accounts.contains_key(client) && a@ == self@.accounts[client]
                    && a.wf(),
                None => !self@.accounts.contains_key(client),
            },
    {
        proof {
            use_type_invariant(self);
        }
        match self.accounts.get(&client) {
            Some(a) => Some(*a),
            None => None,
        }
    }

    /// The ledger entry of the transaction `tx_id`, if a deposit or
    /// withdrawal with that id went through.
    pub fn ledger_entry(&self, tx_id: TxID) -> (r: Option<LedgerEntry>)
        ensures
            r == (if self@.ledger.contains_key(tx_id) {
                Some(self@.ledger[tx_id])
            } else {
                None
            }),
    {
        self.ledger.get(tx_id)
    }

    /// All accounts, in ascending order of their clients.
    pub fn accounts(&self) -> (r: Vec<Account>)
        ensures
            self.wf(),
            forall|i: int|
                0 <= i < r.len() ==> self@.accounts.contains_key(#[trigger] r[i]@.client)
                    && self@.accounts[r[i]@.client] == r[i]@,
            forall|i: int, j: int|
                0 <= i < j < r.len() ==> #[trigger] r[i]@.client < #[trigger] r[j]@.client,
            forall|c: ClientID| #[trigger]
                self@.accounts.contains_key(c) ==> exists|i: int|
                    0 <= i < r.len() && #[trigger] r[i]@.client == c,
    {
        proof {
            use_type_invariant(self);
        }
        let mut out: Vec<Account> = Vec::new();
        let mut client: ClientID = 0;
        let mut done = false;
        while !done
            invariant
                self.wf(),
                forall|i: int|
                    0 <= i < out.len() ==> self@.accounts.contains_key(#[trigger] out[i]@.client)
                        && self@.accounts[out[i]@.client] == out[i]@,
                forall|i: int, j: int|
                    0 <= i < j < out.len() ==> #[trigger] out[i]@.client < #[trigger] out[j]@.client,
                forall|i: int| 0 <= i < out.len() ==> done || #[trigger] out[i]@.client < client,
                forall|c: ClientID| #[trigger]
                    self@.accounts.contains_key(c) && (done || c < client) ==> exists|i: int|
                        0 <= i < out.len() && #[trigger] out[i]@.client == c,
            decreases (if done { 0int } else { 1 + u16::MAX - client }),
        {
            let ghost before = out@;
            match self.accounts.get(&client) {
                Some(a) => {
                    assert(self@.accounts.contains_key(client));
                    out.push(*a);
                    assert(forall|i: int| 0 <= i < before.len() ==> out[i] == before[i]);
                    assert(out[before.len() as int]@.client == client);
                },
                None => {},
            }
            if client == u16::MAX {
                done = true;
            } else {
                client += 1;
            }
        }
        out
    }
}

} // verus!
