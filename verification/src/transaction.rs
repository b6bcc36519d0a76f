//! The events that the engine consumes.

use vstd::prelude::*;
use crate::amount::Amount;

verus! {

/// Identifies a deposit or withdrawal, uniquely over the whole stream.
pub type TxID = u32;

/// Identifies a client, and so an account.
pub type ClientID = u16;

/// What every event carries, whatever its kind.
#[derive(Debug, Clone, Copy, PartialEq, Eq, Structural)]
pub struct TransactionData {
    pub client_id: ClientID,
    pub tx_id: TxID,
    /// Present on deposits and withdrawals only.
    pub amount: Option<Amount>,
    pub under_dispute: bool,
}

/// One event of the stream.
#[derive(Debug, Clone, Copy, PartialEq, Eq, Structural)]
pub enum Transaction {
    Deposit(TransactionData),
    Withdrawal(TransactionData),
    Resolve(TransactionData),
    Dispute(TransactionData),
    Chargeback(TransactionData),
}

impl Transaction {
    /// The payload of the event.
    pub open spec fn spec_data(&self) -> TransactionData {
        match *self {
            Transaction::Deposit(d) => d,
            Transaction::Withdrawal(d) => d,
            Transaction::Resolve(d) => d,
            Transaction::Dispute(d) => d,
            Transaction::Chargeback(d) => d,
        }
    }

    /// The payload of the event.
    #[verifier::when_used_as_spec(spec_data)]
    pub fn data(&self) -> (d: TransactionData)
        ensures
            d == self.spec_data(),
    {
        match self {
            Transaction::Deposit(d) => *d,
            Transaction::Withdrawal(d) => *d,
            Transaction::Resolve(d) => *d,
            Transaction::Dispute(d) => *d,
            Transaction::Chargeback(d) => *d,
        }
    }

    /// A deposit of `amount` into the account of `client_id`.
    pub fn deposit(client_id: ClientID, tx_id: TxID, amount: Amount) -> (t: Transaction)
        ensures
            t == Transaction::Deposit(
                TransactionData { client_id, tx_id, amount: Some(amount), under_dispute: false },
            ),
    {
        Transaction::Deposit(
            TransactionData { client_id, tx_id, amount: Some(amount), under_dispute: false },
        )
    }

    /// A withdrawal of `amount` from the account of `client_id`.
    pub fn withdrawal(client_id: ClientID, tx_id: TxID, amount: Amount) -> (t: Transaction)
        ensures
            t == Transaction::Withdrawal(
                TransactionData { client_id, tx_id, amount: Some(amount), under_dispute: false },
            ),
    {
        Transaction::Withdrawal(
            TransactionData { client_id, tx_id, amount: Some(amount), under_dispute: false },
        )
    }

    /// A dispute of the transaction `tx_id`, raised for `client_id`.
    pub fn dispute(client_id: ClientID, tx_id: TxID) -> (t: Transaction)
        ensures
            t == Transaction::Dispute(
                TransactionData { client_id, tx_id, amount: None, under_dispute: false },
            ),
    {
        Transaction::Dispute(
            TransactionData { client_id, tx_id, amount: None, under_dispute: false },
        )
    }

    /// The release of the dispute of the transaction `tx_id`.
    pub fn resolve(client_id: ClientID, tx_id: TxID) -> (t: Transaction)
        ensures
            t == Transaction::Resolve(
                TransactionData { client_id, tx_id, amount: None, under_dispute: false },
            ),
    {
        Transaction::Resolve(
            TransactionData { client_id, tx_id, amount: None, under_dispute: false },
        )
    }

    /// The reversal of the disputed transaction `tx_id`.
    pub fn chargeback(client_id: ClientID, tx_id: TxID) -> (t: Transaction)
        ensures
            t == Transaction::Chargeback(
                TransactionData { client_id, tx_id, amount: None, under_dispute: false },
            ),
    {
        Transaction::Chargeback(
            TransactionData { client_id, tx_id, amount: None, under_dispute: false },
        )
    }
}

} // verus!
