//! An accounting engine for streams of deposits, withdrawals and disputes.
//!
//! Events are applied one at a time, in arrival order, to per-client
//! accounts and to a ledger of amount-bearing transactions. Every state
//! transition is specified by a mathematical model and proved against it.

pub mod amount;
pub mod amount_order;
pub mod account;
pub mod decimal;
pub mod error;
pub mod laws;
pub mod ledger;
pub mod model;
pub mod processor;
pub mod record;
pub mod transaction;

pub use account::{Account, AccountView};
pub use amount::Amount;
pub use error::AccountingError;
pub use ledger::{Ledger, LedgerEntry};
pub use model::ProcessorView;
pub use processor::TransactionProcessor;
pub use record::{checked_transaction, record_to_transaction, Record};
pub use transaction::{ClientID, Transaction, TransactionData, TxID};
