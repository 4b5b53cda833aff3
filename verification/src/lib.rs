//! A payments engine: a ledger of client accounts driven by a feed of
//! deposits, withdrawals, disputes, resolutions and chargebacks.
//!
//! Money is held in fixed point, as a whole number of ten-thousandths.

pub mod decimal;
pub mod engine;
pub mod error;
pub mod interleaving;
pub mod laws;
pub mod ledger;
pub mod model;
pub mod prefix;
pub mod processor;
pub mod record;
pub mod report;
pub mod transaction;

pub use crate::engine::{process_records, run_engine};
pub use crate::error::PaymentsEngineError;
pub use crate::ledger::{Client, Database};
pub use crate::model::{Diagnostic, Rejection};
pub use crate::processor::handle_transaction;
pub use crate::transaction::{Transaction, TransactionType};
