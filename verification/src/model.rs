//! The mathematical model of the ledger: what an account and a ledger are,
//! and what one transaction does to them.
//!
//! Everything the executable code promises is stated over these functions.

use vstd::prelude::*;

use crate::transaction::{Transaction, TransactionType};

verus! {

/// Why a transaction was turned down.
#[derive(Clone, Copy, Debug, PartialEq, Eq, Structural)]
pub enum Rejection {
    /// The client's account is frozen.
    AccountLocked,
    /// A deposit or a withdrawal that carries no amount.
    MissingAmount,
    /// A withdrawal of more than is available.
    InsufficientFunds,
    /// The transaction referred to is not on record, or is on record without
    /// an amount.
    UnknownTransaction,
    /// The transaction referred to belongs to another client.
    ClientMismatch,
    /// A resolution or a chargeback of a transaction that is not in dispute.
    NotDisputed,
    /// A balance would leave the range that an account can hold.
    BalanceOverflow,
}

/// A transaction that was turned down, and why.
#[derive(Clone, Copy, Debug, PartialEq, Eq)]
pub struct Diagnostic {
    pub transaction: Transaction,
    pub reason: Rejection,
}

/// Whether a balance is one that an account can hold.
pub open spec fn fits(v: int) -> bool {
    i64::MIN <= v <= i64::MAX
}

/// An account, seen as a mathematical value.
pub struct ClientState {
    pub available: int,
    pub held: int,
    pub locked: bool,
    pub disputed: Set<u32>,
}

impl ClientState {
    /// The account of a client that has not been heard of yet.
    pub open spec fn fresh() -> ClientState {
        ClientState { available: 0, held: 0, locked: false, disputed: Set::empty() }
    }

    pub open spec fn total(self) -> int {
        self.available + self.held
    }
}

/// A ledger, seen as a mathematical value.
pub struct LedgerState {
    pub transactions: Map<u32, Transaction>,
    pub clients: Map<u16, ClientState>,
}

impl LedgerState {
    pub open spec fn empty() -> LedgerState {
        LedgerState { transactions: Map::empty(), clients: Map::empty() }
    }

    /// The account of `id`, which is a fresh one until `id` is first heard of.
    pub open spec fn client(self, id: u16) -> ClientState {
        if self.clients.contains_key(id) {
            self.clients[id]
        } else {
            ClientState::fresh()
        }
    }

    /// The deposit or withdrawal on record under `txn_id`.
    pub open spec fn lookup(self, txn_id: u32) -> Option<Transaction> {
        if self.transactions.contains_key(txn_id) {
            Some(self.transactions[txn_id])
        } else {
            None
        }
    }

    /// What holds of every ledger that transactions have built: each
    /// transaction on record is a deposit or a withdrawal with an amount,
    /// filed under its own id, of a client that has an account; every
    /// balance is one an account can hold; and whatever is in dispute is on
    /// record.
    pub open spec fn wf(self) -> bool {
        &&& forall|id: u32| #[trigger]
            self.transactions.contains_key(id) ==> {
                &&& self.transactions[id].txn_id == id
                &&& self.transactions[id].transaction_type.moves_funds()
                &&& self.transactions[id].amount is Some
                &&& self.clients.contains_key(self.transactions[id].client_id)
            }
        &&& forall|c: u16| #[trigger]
            self.clients.contains_key(c) ==> {
                &&& fits(self.clients[c].available)
                &&& fits(self.clients[c].held)
                &&& self.clients[c].disputed.subset_of(self.transactions.dom())
            }
    }
}

/// The amount that a dispute, a resolution or a chargeback `t` is about,
/// given what is on record under the id it names.
pub open spec fn referenced_amount(referenced: Option<Transaction>, t: Transaction) -> Result<
    u64,
    Rejection,
> {
    match referenced {
        Some(r) => match r.amount {
            Some(a) => if r.client_id == t.client_id {
                Ok(a)
            } else {
                Err(Rejection::ClientMismatch)
            },
            None => Err(Rejection::UnknownTransaction),
        },
        None => Err(Rejection::UnknownTransaction),
    }
}

/// What `t` does to the account `c` of its client, given what is on record
/// under the id that `t` names: the account afterwards, or the reason why
/// the account stays as it is.
pub open spec fn settle(c: ClientState, referenced: Option<Transaction>, t: Transaction) -> Result<
    ClientState,
    Rejection,
> {
    if c.locked {
        Err(Rejection::AccountLocked)
    } else {
        match t.transaction_type {
            TransactionType::Deposit => match t.amount {
                None => Err(Rejection::MissingAmount),
                Some(a) => if fits(c.available + a) {
                    Ok(ClientState { available: c.available + a, ..c })
                } else {
                    Err(Rejection::BalanceOverflow)
                },
            },
            TransactionType::Withdrawal => match t.amount {
                None => Err(Rejection::MissingAmount),
                Some(a) => if c.available < a {
                    Err(Rejection::InsufficientFunds)
                } else {
                    Ok(ClientState { available: c.available - a, ..c })
                },
            },
            TransactionType::Dispute => match referenced_amount(referenced, t) {
                Err(e) => Err(e),
                Ok(a) => if fits(c.available - a) && fits(c.held + a) {
                    Ok(
                        ClientState {
                            available: c.available - a,
                            held: c.held + a,
                            disputed: c.disputed.insert(t.txn_id),
                            ..c
                        },
                    )
                } else {
                    Err(Rejection::BalanceOverflow)
                },
            },
            TransactionType::Resolve => match referenced_amount(referenced, t) {
                Err(e) => Err(e),
                Ok(a) => if !c.disputed.contains(t.txn_id) {
                    Err(Rejection::NotDisputed)
                } else if fits(c.available + a) && fits(c.held - a) {
                    Ok(
                        ClientState {
                            available: c.available + a,
                            held: c.held - a,
                            disputed: c.disputed.remove(t.txn_id),
                            ..c
                        },
                    )
                } else {
                    Err(Rejection::BalanceOverflow)
                },
            },
            TransactionType::ChargeBack => match referenced_amount(referenced, t) {
                Err(e) => Err(e),
                Ok(a) => if !c.disputed.contains(t.txn_id) {
                    Err(Rejection::NotDisputed)
                } else if fits(c.held - a) {
                    Ok(ClientState { held: c.held - a, locked: true, ..c })
                } else {
                    Err(Rejection::BalanceOverflow)
                },
            },
        }
    }
}

/// Whether `t` goes on record when the account of its client is `c`.
///
/// A deposit goes on record when it is applied. A withdrawal that carries an
/// amount goes on record whenever the account is not frozen, also when it is
/// turned down for want of funds. Nothing else goes on record.
pub open spec fn goes_on_record(c: ClientState, t: Transaction) -> bool {
    !c.locked && t.amount is Some && match t.transaction_type {
        TransactionType::Deposit => fits(c.available + t.amount->0),
        TransactionType::Withdrawal => true,
        _ => false,
    }
}

/// The verdict on `t` in the ledger `s`: `Ok` when it is applied, or the
/// reason why it is not.
pub open spec fn verdict(s: LedgerState, t: Transaction) -> Result<(), Rejection> {
    match settle(s.client(t.client_id), s.lookup(t.txn_id), t) {
        Ok(_) => Ok(()),
        Err(e) => Err(e),
    }
}

/// The ledger after `t` has been handled in the ledger `s`.
///
/// The client of `t` has an account afterwards, whatever the verdict.
pub open spec fn step(s: LedgerState, t: Transaction) -> LedgerState {
    let c = s.client(t.client_id);
    LedgerState {
        clients: s.clients.insert(
            t.client_id,
            match settle(c, s.lookup(t.txn_id), t) {
                Ok(after) => after,
                Err(_) => c,
            },
        ),
        transactions: if goes_on_record(c, t) {
            s.transactions.insert(t.txn_id, t)
        } else {
            s.transactions
        },
    }
}

/// The ledger after the whole of `feed` has been handled in order, starting
/// from the ledger `s`.
pub open spec fn run(s: LedgerState, feed: Seq<Transaction>) -> LedgerState
    decreases feed.len(),
{
    if feed.len() == 0 {
        s
    } else {
        step(run(s, feed.drop_last()), feed.last())
    }
}

/// The diagnostics that handling `feed` from the ledger `s` gives rise to:
/// one for each transaction that is turned down, in the order of the feed.
pub open spec fn diagnostics(s: LedgerState, feed: Seq<Transaction>) -> Seq<Diagnostic>
    decreases feed.len(),
{
    if feed.len() == 0 {
        Seq::empty()
    } else {
        let earlier = diagnostics(s, feed.drop_last());
        match verdict(run(s, feed.drop_last()), feed.last()) {
            Ok(_) => earlier,
            Err(reason) => earlier.push(Diagnostic { transaction: feed.last(), reason }),
        }
    }
}

} // verus!
