//! The failures an event can end in.

use vstd::prelude::*;

verus! {

/// Why an event, or a record that should describe one, was turned down.
///
/// A failure concerns the one event that caused it: what earlier events did
/// stays, and later events are processed as usual.
#[derive(Debug, Clone, Copy, PartialEq, Eq, Structural)]
pub enum AccountingError {
    /// A withdrawal asked for more than the account has available.
    InsufficientFunds,
    /// A dispute names a transaction whose amount is no longer available.
    InsufficientFundsForDispute,
    /// A deposit or withdrawal without an amount, or with one that is not
    /// positive, or a deposit that the account's total cannot take up.
    InvalidAmount,
    /// A deposit or withdrawal whose transaction id the ledger already holds.
    DuplicateTransaction,
    /// The account was locked by a chargeback.
    AccountLocked,
    /// A resolve or chargeback asks for more than the account holds.
    InternalInvariantViolation,
    /// A record that describes no event.
    MalformedTransaction,
}

impl AccountingError {
    /// The text shown to a person for this failure.
    pub fn message(&self) -> (text: &'static str)
        ensures
            text@ == Self::message_of(*self),
    {
        match self {
            AccountingError::InsufficientFunds => "Error: Insufficient funds for withdrawal",
            AccountingError::InsufficientFundsForDispute => "Error: Insufficient funds for dispute",
            AccountingError::InvalidAmount => "Error: Invalid amount",
            AccountingError::DuplicateTransaction => "Error: The transaction already exists in the ledger",
            AccountingError::AccountLocked => "Error: Account is locked",
            AccountingError::InternalInvariantViolation => "Error: Held funds are less than the disputed amount",
            AccountingError::MalformedTransaction => "Error: malformed transaction",
        }
    }

    /// The characters of [`AccountingError::message`].
    pub open spec fn message_of(e: AccountingError) -> Seq<char> {
        match e {
            AccountingError::InsufficientFunds => "Error: Insufficient funds for withdrawal"@,
            AccountingError::InsufficientFundsForDispute => "Error: Insufficient funds for dispute"@,
            AccountingError::InvalidAmount => "Error: Invalid amount"@,
            AccountingError::DuplicateTransaction => "Error: The transaction already exists in the ledger"@,
            AccountingError::AccountLocked => "Error: Account is locked"@,
            AccountingError::InternalInvariantViolation => "Error: Held funds are less than the disputed amount"@,
            AccountingError::MalformedTransaction => "Error: malformed transaction"@,
        }
    }
}

} // verus!
