//! The transaction processor: one transaction at a time against the ledger.

use vstd::prelude::*;

use crate::laws::{lemma_locked_account_rejects, lemma_step_keeps_wf};
use crate::ledger::{Client, Database};
use crate::model::{fits, referenced_amount, settle, step, verdict, Rejection};
use crate::transaction::{Transaction, TransactionType};

verus! {

/// The amount that the dispute, resolution or chargeback `txn` is about,
/// given what is on record under the id it names.
fn amount_referred_to(referenced: Option<Transaction>, txn: &Transaction) -> (amount: Result<
    u64,
    Rejection,
>)
    ensures
        amount == referenced_amount(referenced, *txn),
{
    match referenced {
        Some(Transaction { client_id, amount: Some(amount), .. }) => {
            if client_id != txn.client_id {
                Err(Rejection::ClientMismatch)
            } else {
                Ok(amount)
            }
        },
        _ => Err(Rejection::UnknownTransaction),
    }
}

/// `balance + amount`, where an account can hold it.
fn raised(balance: i64, amount: u64) -> (sum: Option<i64>)
    ensures
        match sum {
            Some(v) => v == balance + amount,
            None => !fits(balance + amount),
        },
{
    let sum: i128 = balance as i128 + amount as i128;
    if sum <= i64::MAX as i128 {
        Some(sum as i64)
    } else {
        None
    }
}

/// `balance - amount`, where an account can hold it.
fn lowered(balance: i64, amount: u64) -> (difference: Option<i64>)
    ensures
        match difference {
            Some(v) => v == balance - amount,
            None => !fits(balance - amount),
        },
{
    let difference: i128 = balance as i128 - amount as i128;
    if difference >= i64::MIN as i128 {
        Some(difference as i64)
    } else {
        None
    }
}

impl Client {
    /// Applies `txn`, a transaction of this client, to the account.
    /// `referenced` is what the ledger has on record under the id that `txn`
    /// names. Where `txn` is turned down the account stays as it is.
    pub fn settle(&mut self, referenced: Option<Transaction>, txn: &Transaction) -> (outcome:
        Result<(), Rejection>)
        ensures
            match settle(old(self)@, referenced, *txn) {
                Ok(after) => outcome == Ok::<(), Rejection>(()) && final(self)@ == after,
                Err(reason) => outcome == Err::<(), Rejection>(reason) && *final(self) == *old(
                    self,
                ),
            },
    {
        broadcast use vstd::std_specs::hash::group_hash_axioms;

        if self.locked {
            return Err(Rejection::AccountLocked);
        }
        match txn.transaction_type {
            TransactionType::Deposit => {
                let amount = match txn.amount {
                    Some(amount) => amount,
                    None => return Err(Rejection::MissingAmount),
                };
                match raised(self.available, amount) {
                    Some(available) => {
                        self.available = available;
                        Ok(())
                    },
                    None => Err(Rejection::BalanceOverflow),
                }
            },
            TransactionType::Withdrawal => {
                let amount = match txn.amount {
                    Some(amount) => amount,
                    None => return Err(Rejection::MissingAmount),
                };
                if self.available < 0 || (self.available as u64) < amount {
                    Err(Rejection::InsufficientFunds)
                } else {
                    self.available = self.available - amount as i64;
                    Ok(())
                }
            },
            TransactionType::Dispute => {
                let amount = amount_referred_to(referenced, txn)?;
                match (lowered(self.available, amount), raised(self.held, amount)) {
                    (Some(available), Some(held)) => {
                        self.available = available;
                        self.held = held;
                        self.disputed.insert(txn.txn_id);
                        Ok(())
                    },
                    _ => Err(Rejection::BalanceOverflow),
                }
            },
            TransactionType::Resolve => {
                let amount = amount_referred_to(referenced, txn)?;
                if !self.disputed.contains(&txn.txn_id) {
                    return Err(Rejection::NotDisputed);
                }
                match (raised(self.available, amount), lowered(self.held, amount)) {
                    (Some(available), Some(held)) => {
                        self.available = available;
                        self.held = held;
                        self.disputed.remove(&txn.txn_id);
                        Ok(())
                    },
                    _ => Err(Rejection::BalanceOverflow),
                }
            },
            TransactionType::ChargeBack => {
                let amount = amount_referred_to(referenced, txn)?;
                if !self.disputed.contains(&txn.txn_id) {
                    return Err(Rejection::NotDisputed);
                }
                match lowered(self.held, amount) {
                    Some(held) => {
                        self.held = held;
                        self.locked = true;
                        Ok(())
                    },
                    None => Err(Rejection::BalanceOverflow),
                }
            },
        }
    }
}

/// Handles one transaction: applies it to the ledger, or turns it down and
/// says why. A transaction that is turned down changes no balance, no lock
/// and no dispute.
///
/// The client of `txn` has an account afterwards, whatever the verdict. A
/// withdrawal that is turned down for want of funds still goes on record;
/// nothing else that is turned down does. A transaction that would take a
/// balance out of the range of `i64` is turned down. A transaction of a
/// client whose account is frozen leaves the whole ledger as it is.
pub fn handle_transaction(db: &mut Database, txn: Transaction) -> (outcome: Result<(), Rejection>)
    ensures
        final(db)@ == step(old(db)@, txn),
        outcome == verdict(old(db)@, txn),
        old(db).wf() ==> final(db).wf(),
        old(db)@.client(txn.client_id).locked ==> final(db)@ == old(db)@ && outcome == Err::<
            (),
            Rejection,
        >(Rejection::AccountLocked),
{
    proof {
        if old(db).wf() {
            lemma_step_keeps_wf(old(db)@, txn);
        }
        if old(db)@.client(txn.client_id).locked {
            lemma_locked_account_rejects(old(db)@, txn);
        }
    }
    let referenced = match db.lookup_transaction(txn.txn_id) {
        Some(found) => Some(*found),
        None => None,
    };
    let client = db.get_or_create_client(txn.client_id);
    let outcome = client.settle(referenced, &txn);
    let on_record = match txn.transaction_type {
        TransactionType::Deposit => outcome.is_ok(),
        TransactionType::Withdrawal => match outcome {
            Ok(()) | Err(Rejection::InsufficientFunds) => true,
            Err(_) => false,
        },
        _ => false,
    };
    if on_record {
        db.record_transaction(txn);
    }
    outcome
}

} // verus!
