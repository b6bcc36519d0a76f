//! The balance record of one client.

use vstd::prelude::*;
use crate::amount::Amount;
use crate::error::AccountingError;
use crate::transaction::ClientID;

verus! {

/// The mathematical content of an [`Account`]: balances in ten-thousandths.
pub ghost struct AccountView {
    pub client: ClientID,
    pub available: int,
    pub held: int,
    pub total: int,
    pub locked: bool,
}

impl AccountView {
    /// The account a client has before any event touched it.
    pub open spec fn fresh(client: ClientID) -> AccountView {
        AccountView { client, available: 0, held: 0, total: 0, locked: false }
    }

    /// No balance is negative, and the total is the sum of the other two.
    pub open spec fn wf(self) -> bool {
        &&& self.available >= 0
        &&& self.held >= 0
        &&& self.total == self.available + self.held
    }

    /// `amount` more is available.
    pub open spec fn deposit(self, amount: int) -> AccountView {
        AccountView {
            available: self.available + amount,
            total: self.total + amount,
            ..self
        }
    }

    /// Whether a withdrawal of `amount` is granted.
    pub open spec fn can_withdraw(self, amount: int) -> bool {
        amount > 0 && self.available >= amount
    }

    /// `amount` less is available.
    pub open spec fn withdraw(self, amount: int) -> AccountView {
        AccountView {
            available: self.available - amount,
            total: self.total - amount,
            ..self
        }
    }

    /// `amount` moves from available to held.
    pub open spec fn dispute(self, amount: int) -> AccountView {
        AccountView {
            available: self.available - amount,
            held: self.held + amount,
            ..self
        }
    }

    /// `amount` moves from held back to available.
    pub open spec fn resolve(self, amount: int) -> AccountView {
        AccountView {
            available: self.available + amount,
            held: self.held - amount,
            ..self
        }
    }

    /// `amount` leaves the held funds for good, and the account is locked.
    pub open spec fn chargeback(self, amount: int) -> AccountView {
        AccountView {
            held: self.held - amount,
            total: self.total - amount,
            locked: true,
            ..self
        }
    }
}

/// The funds of one client: what is available, what is held while a dispute
/// lasts, their total, and whether a chargeback has locked the account.
#[derive(Debug, Clone, Copy, PartialEq, Eq, Structural)]
pub struct Account {
    pub client: ClientID,
    available: Amount,
    held: Amount,
    total: Amount,
    pub locked: bool,
}

impl View for Account {
    type V = AccountView;

    closed spec fn view(&self) -> AccountView {
        AccountView {
            client: self.client,
            available: self.available@,
            held: self.held@,
            total: self.total@,
            locked: self.locked,
        }
    }
}

impl Default for Account {
    /// The fresh account of client 0.
    fn default() -> (r: Account)
        ensures
            r@ == AccountView::fresh(0),
    {
        Account {
            client: 0,
            available: Amount::zero(),
            held: Amount::zero(),
            total: Amount::zero(),
            locked: false,
        }
    }
}

impl Account {
    /// The balances obey the account invariant.
    pub open spec fn wf(&self) -> bool {
        self@.wf()
    }

    /// An unlocked account with the given balances.
    pub fn new(client: ClientID, available: Amount, held: Amount, total: Amount) -> (r: Account)
        ensures
            r@ == (AccountView {
                client,
                available: available@,
                held: held@,
                total: total@,
                locked: false,
            }),
    {
        Account { client, available, held, total, locked: false }
    }

    /// The client that owns the account.
    pub fn client(&self) -> (r: ClientID)
        ensures
            r == self@.client,
    {
        self.client
    }

    /// Whether a chargeback has locked the account.
    pub fn is_locked(&self) -> (r: bool)
        ensures
            r == self@.locked,
    {
        self.locked
    }

    /// The funds free to withdraw or to dispute.
    pub fn available(&self) -> (r: Amount)
        ensures
            r@ == self@.available,
    {
        self.available
    }

    /// The funds frozen by disputes.
    pub fn held(&self) -> (r: Amount)
        ensures
            r@ == self@.held,
    {
        self.held
    }

    /// Available and held funds together.
    pub fn total(&self) -> (r: Amount)
        ensures
            r@ == self@.total,
    {
        self.total
    }

    /// Whether `amount` can be deposited: it is positive and the total stays
    /// in the range of the type.
    pub fn can_deposit(&self, amount: Amount) -> (r: bool)
        requires
            self.wf(),
        ensures
            r == (amount@ > 0 && self@.total + amount@ <= i128::MAX),
    {
        amount.units > 0 && amount.units <= i128::MAX - self.total.units
    }

    /// Adds `amount` to the available funds and to the total.
    pub fn deposit(&mut self, amount: Amount)
        requires
            old(self).wf(),
            !old(self)@.locked,
            amount@ > 0,
            old(self)@.total + amount@ <= i128::MAX,
        ensures
            final(self)@ == old(self)@.deposit(amount@),
            final(self).wf(),
    {
        self.available = Amount { units: self.available.units + amount.units };
        self.total = Amount { units: self.total.units + amount.units };
    }

    /// Takes `amount` from the available funds and from the total, where the
    /// amount is positive and covered; otherwise the account stays as it is.
    pub fn withdrawal(&mut self, amount: Amount) -> (r: Result<(), AccountingError>)
        requires
            old(self).wf(),
            !old(self)@.locked,
        ensures
            final(self).wf(),
            old(self)@.can_withdraw(amount@) ==> r == Ok::<(), AccountingError>(())
                && final(self)@ == old(self)@.withdraw(amount@),
            !old(self)@.can_withdraw(amount@) ==> r == Err::<(), AccountingError>(
                AccountingError::InsufficientFunds,
            ) && final(self)@ == old(self)@,
    {
        if amount.units > 0 && self.available.units >= amount.units {
            self.available = Amount { units: self.available.units - amount.units };
            self.total = Amount { units: self.total.units - amount.units };
            return Ok(());
        }
        Err(AccountingError::InsufficientFunds)
    }

    /// Freezes `amount` of the available funds, where that much is available;
    /// otherwise the account stays as it is.
    pub fn dispute(&mut self, amount: Amount) -> (r: Result<(), AccountingError>)
        requires
            old(self).wf(),
            !old(self)@.locked,
            amount@ >= 0,
        ensures
            final(self).wf(),
            final(self)@.total == old(self)@.total,
            final(self)@.locked == old(self)@.locked,
            final(self)@.client == old(self)@.client,
            old(self)@.available >= amount@ ==> r == Ok::<(), AccountingError>(())
                && final(self)@ == old(self)@.dispute(amount@),
            old(self)@.available < amount@ ==> r == Err::<(), AccountingError>(
                AccountingError::InsufficientFundsForDispute,
            ) && final(self)@ == old(self)@,
    {
        if self.available.units >= amount.units {
            self.held = Amount { units: self.held.units + amount.units };
            self.available = Amount { units: self.available.units - amount.units };
        } else {
            return Err(AccountingError::InsufficientFundsForDispute);
        }
        Ok(())
    }

    /// Releases `amount` of the held funds.
    pub fn resolve(&mut self, amount: Amount)
        requires
            old(self).wf(),
            !old(self)@.locked,
            0 <= amount@ <= old(self)@.held,
        ensures
            final(self)@ == old(self)@.resolve(amount@),
            final(self).wf(),
    {
        self.held = Amount { units: self.held.units - amount.units };
        self.available = Amount { units: self.available.units + amount.units };
    }

    /// Removes `amount` of the held funds from the account and locks it.
    pub fn chargeback(&mut self, amount: Amount)
        requires
            old(self).wf(),
            !old(self)@.locked,
            0 <= amount@ <= old(self)@.held,
        ensures
            final(self)@ == old(self)@.chargeback(amount@),
            final(self).wf(),
            final(self)@.locked,
    {
        self.held = Amount { units: self.held.units - amount.units };
        self.total = Amount { units: self.total.units - amount.units };
        self.locked = true;
    }
}

} // verus!
