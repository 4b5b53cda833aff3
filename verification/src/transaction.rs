//! The transactions that a feed is made of.

use vstd::prelude::*;

verus! {

/// What a transaction asks the ledger to do.
#[derive(Clone, Copy, Debug, PartialEq, Eq, Structural)]
pub enum TransactionType {
    /// A credit to the client's account: it raises the available balance.
    Deposit,
    /// A debit to the client's account: it lowers the available balance.
    Withdrawal,
    /// A claim that an earlier transaction was erroneous. The amount of the
    /// transaction it refers to is put on hold.
    Dispute,
    /// The end of a dispute in the client's favour: the amount on hold
    /// becomes available again.
    Resolve,
    /// The end of a dispute against the client: the amount on hold leaves the
    /// account, and the account is frozen.
    ChargeBack,
}

/// One entry of a feed.
///
/// A deposit or a withdrawal brings its own `txn_id` and an `amount`. A
/// dispute, a resolution or a chargeback names in `txn_id` the earlier
/// transaction it is about, and its own `amount` is not looked at.
#[derive(Clone, Copy, Debug, PartialEq, Eq)]
pub struct Transaction {
    pub transaction_type: TransactionType,
    pub client_id: u16,
    pub txn_id: u32,
    /// In ten-thousandths of a unit.
    pub amount: Option<u64>,
}

impl TransactionType {
    /// Whether a transaction of this kind refers to an earlier one instead of
    /// carrying an amount of its own.
    pub open spec fn refers(self) -> bool {
        self is Dispute || self is Resolve || self is ChargeBack
    }

    /// Whether a transaction of this kind moves money into or out of the
    /// account.
    pub open spec fn moves_funds(self) -> bool {
        self is Deposit || self is Withdrawal
    }
}

} // verus!
