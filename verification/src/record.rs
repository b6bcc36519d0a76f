//! Records as an outside source delivers them, and the events they describe.

use vstd::prelude::*;
use crate::amount::Amount;
use crate::error::AccountingError;
use crate::transaction::{ClientID, Transaction, TransactionData, TxID};

verus! {

/// One row of the input: every column may be missing.
#[derive(Debug, PartialEq, Eq)]
pub struct Record {
    pub transaction_type: Option<String>,
    pub client: Option<ClientID>,
    pub tx: Option<TxID>,
    pub amount: Option<Amount>,
}

/// The payload of an event without an amount.
pub open spec fn reference_data(client_id: ClientID, tx_id: TxID) -> TransactionData {
    TransactionData { client_id, tx_id, amount: None, under_dispute: false }
}

/// The payload of an event that moves `amount`.
pub open spec fn movement_data(client_id: ClientID, tx_id: TxID, amount: Amount) -> TransactionData {
    TransactionData { client_id, tx_id, amount: Some(amount), under_dispute: false }
}

/// The event that a row describes, if it describes one.
///
/// The kind is one of five lower-case words. Every kind needs a client and
/// a transaction id. A deposit or withdrawal also needs a positive amount;
/// the other kinds carry none, whatever the row holds.
pub open spec fn decode(
    kind: Option<Seq<char>>,
    client: Option<ClientID>,
    tx: Option<TxID>,
    amount: Option<Amount>,
) -> Option<Transaction> {
    if kind is None || client is None || tx is None {
        None
    } else {
        let (word, c, t) = (kind->0, client->0, tx->0);
        if word == "deposit"@ {
            if amount is Some && amount->0@ > 0 {
                Some(Transaction::Deposit(movement_data(c, t, amount->0)))
            } else {
                None
            }
        } else if word == "withdrawal"@ {
            if amount is Some && amount->0@ > 0 {
                Some(Transaction::Withdrawal(movement_data(c, t, amount->0)))
            } else {
                None
            }
        } else if word == "dispute"@ {
            Some(Transaction::Dispute(reference_data(c, t)))
        } else if word == "resolve"@ {
            Some(Transaction::Resolve(reference_data(c, t)))
        } else if word == "chargeback"@ {
            Some(Transaction::Chargeback(reference_data(c, t)))
        } else {
            None
        }
    }
}

impl Record {
    /// The kind of the row as characters.
    pub open spec fn kind(&self) -> Option<Seq<char>> {
        match self.transaction_type {
            Some(word) => Some(word@),
            None => None,
        }
    }
}

/// Whether `text` reads exactly `word`.
fn reads(text: &String, word: &str) -> (r: bool)
    ensures
        r == (text@ == word@),
{
    let owned = word.to_owned();
    *text == owned
}

/// Turns a row into the event it describes; `None` for a row that
/// describes none.
pub fn record_to_transaction(record: &Record) -> (r: Option<Transaction>)
    ensures
        r == decode(record.kind(), record.client, record.tx, record.amount),
{
    let word = match &record.transaction_type {
        Some(word) => word,
        None => {
            return None;
        },
    };
    let client_id = match record.client {
        Some(c) => c,
        None => {
            return None;
        },
    };
    let tx_id = match record.tx {
        Some(t) => t,
        None => {
            return None;
        },
    };
    if reads(word, "deposit") {
        match record.amount {
            Some(amount) => {
                if amount.is_positive() {
                    Some(Transaction::deposit(client_id, tx_id, amount))
                } else {
                    None
                }
            },
            None => None,
        }
    } else if reads(word, "withdrawal") {
        match record.amount {
            Some(amount) => {
                if amount.is_positive() {
                    Some(Transaction::withdrawal(client_id, tx_id, amount))
                } else {
                    None
                }
            },
            None => None,
        }
    } else if reads(word, "dispute") {
        Some(Transaction::dispute(client_id, tx_id))
    } else if reads(word, "resolve") {
        Some(Transaction::resolve(client_id, tx_id))
    } else if reads(word, "chargeback") {
        Some(Transaction::chargeback(client_id, tx_id))
    } else {
        None
    }
}

/// The event of a row, or the failure that reports a malformed row.
pub fn checked_transaction(record: &Record) -> (r: Result<Transaction, AccountingError>)
    ensures
        r == (match decode(record.kind(), record.client, record.tx, record.amount) {
            Some(tx) => Ok::<Transaction, AccountingError>(tx),
            None => Err::<Transaction, AccountingError>(AccountingError::MalformedTransaction),
        }),
{
    match record_to_transaction(record) {
        Some(tx) => Ok(tx),
        None => Err(AccountingError::MalformedTransaction),
    }
}

} // verus!
