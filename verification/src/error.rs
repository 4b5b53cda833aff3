//! What can stop a run.

use vstd::prelude::*;

verus! {

/// Why a feed could not be read to its end. Each of these stops the run; a
/// transaction that is merely turned down does not.
#[derive(Debug)]
pub enum PaymentsEngineError {
    /// The input is not well-formed CSV.
    Csv(csv::Error),
    /// The first field of a record is none of the five kinds of transaction,
    /// or the record has no field at all.
    UnknownTransactionType,
    /// The record ends before the client or the transaction id.
    MissingField,
    /// The second field is not a number that a client id can be.
    InvalidClientId,
    /// The third field is not a number that a transaction id can be.
    InvalidTransactionId,
    /// The fourth field is neither blank nor an amount.
    InvalidAmount,
}

} // verus!
